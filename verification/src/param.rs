//! The parameter registry.
//!
//! Every instrument parameter family — gain, input source, decimation,
//! waveform shape, trigger source, pin identity and so on — is a closed set
//! of variants with a 1:1 canonical wire token. One table-driven mechanism
//! serves them all: a family implements [`Parameter`] by listing its variants
//! and their tokens, and encode and decode fall out uniformly, with decoding
//! failing loudly on any token outside the table.

use vstd::prelude::*;
use crate::error::Error;
use crate::codec::str_eq;

verus! {

/// One parameter family: a closed variant set with its token table.
///
/// The laws every family proves make the table a bijection between the
/// variants and their tokens: `variants_spec` lists every variant and no two
/// variants share a token. Tokens never contain `'?'`, so a token embedded in
/// a command never turns it into a query.
pub trait Parameter: Sized + Copy {
    /// The canonical wire token of this variant.
    spec fn token_spec(self) -> Seq<char>;

    /// The family's name, used in decode errors.
    spec fn family_spec() -> Seq<char>;

    /// Every variant of the family, in table order.
    spec fn variants_spec() -> Seq<Self>;

    /// The table covers the family: every variant is listed.
    proof fn lemma_variants_cover(self)
        ensures
            Self::variants_spec().contains(self),
    ;

    /// No two variants share a token.
    proof fn lemma_tokens_injective(a: Self, b: Self)
        ensures
            a.token_spec() == b.token_spec() ==> a == b,
    ;

    /// No token contains a question mark.
    proof fn lemma_tokens_wire_safe(self)
        ensures
            !self.token_spec().contains('?'),
    ;

    /// The variant table.
    fn variants() -> (vs: Vec<Self>)
        ensures
            vs@ == Self::variants_spec(),
    ;

    /// Encodes this variant as its wire token. Total: every variant has a
    /// token.
    fn encode(self) -> (t: String)
        ensures
            t@ == self.token_spec(),
    ;

    /// The family's name.
    fn family() -> (f: String)
        ensures
            f@ == Self::family_spec(),
    ;
}

/// The first variant of `vs` whose token is `t`, if any.
pub open spec fn spec_decode_from<P: Parameter>(vs: Seq<P>, t: Seq<char>) -> Option<P>
    decreases vs.len(),
{
    if vs.len() == 0 {
        None
    } else if vs.first().token_spec() == t {
        Some(vs.first())
    } else {
        spec_decode_from(vs.drop_first(), t)
    }
}

/// The variant a token decodes to, if the token is in the family's table.
pub open spec fn decode_spec<P: Parameter>(t: Seq<char>) -> Option<P> {
    spec_decode_from(P::variants_spec(), t)
}

/// What `decode` promises about its result for a given token text.
pub open spec fn decoded<P: Parameter>(r: Result<P, Error>, t: Seq<char>) -> bool {
    &&& (r is Ok <==> decode_spec::<P>(t) is Some)
    &&& (r matches Ok(v) ==> decode_spec::<P>(t) == Some(v))
    &&& (r matches Err(e) ==> e matches Error::UnknownToken { family, token }
        && family@ == P::family_spec() && token@ == t)
}

/// Decodes a wire token against the family's table: an exact, case-sensitive
/// match. A token outside the table is a typed error carrying the token and
/// the family name — never a default variant.
pub fn decode<P: Parameter>(token: &str) -> (r: Result<P, Error>)
    ensures
        decoded::<P>(r, token@),
{
    let vs = P::variants();
    let n = vs.len();
    let mut i: usize = 0;
    proof {
        assert(vs@.skip(0) =~= vs@);
    }
    while i < n
        invariant
            n == vs.len(),
            vs@ == P::variants_spec(),
            0 <= i <= n,
            decode_spec::<P>(token@) == spec_decode_from(vs@.skip(i as int), token@),
        decreases n - i,
    {
        let v = vs[i];
        let t = v.encode();
        proof {
            assert(vs@.skip(i as int).first() == vs@[i as int]);
        }
        if str_eq(t.as_str(), token) {
            return Ok(v);
        }
        proof {
            assert(vs@.skip(i as int).drop_first() =~= vs@.skip(i + 1));
        }
        i = i + 1;
    }
    proof {
        assert(vs@.skip(n as int) =~= Seq::<P>::empty());
    }
    Err(Error::UnknownToken { family: P::family(), token: token.to_owned() })
}

/// Within a table, decoding a listed variant's own token finds that variant.
proof fn lemma_spec_decode_finds<P: Parameter>(vs: Seq<P>, v: P)
    requires
        vs.contains(v),
    ensures
        spec_decode_from(vs, v.token_spec()) == Some(v),
    decreases vs.len(),
{
    if vs.first().token_spec() == v.token_spec() {
        P::lemma_tokens_injective(vs.first(), v);
    } else {
        let i = choose|i: int| 0 <= i < vs.len() && vs[i] == v;
        assert(vs.drop_first()[i - 1] == v);
        lemma_spec_decode_finds(vs.drop_first(), v);
    }
}

/// Round trip: decoding the token a variant encodes to yields that variant
/// back, for every variant of every family.
pub proof fn lemma_decode_encode<P: Parameter>(v: P)
    ensures
        decode_spec::<P>(v.token_spec()) == Some(v),
{
    P::lemma_variants_cover(v);
    lemma_spec_decode_finds(P::variants_spec(), v);
}

/// A token that no variant of the family encodes to decodes to nothing, so
/// `decode` returns an error on it — never a default variant.
pub proof fn lemma_decode_unknown<P: Parameter>(t: Seq<char>)
    requires
        forall|v: P| P::variants_spec().contains(v) ==> #[trigger] v.token_spec() != t,
    ensures
        decode_spec::<P>(t) is None,
{
    lemma_spec_decode_from_none(P::variants_spec(), t);
}

proof fn lemma_spec_decode_from_none<P: Parameter>(vs: Seq<P>, t: Seq<char>)
    requires
        forall|v: P| vs.contains(v) ==> #[trigger] v.token_spec() != t,
    ensures
        spec_decode_from(vs, t) is None,
    decreases vs.len(),
{
    if vs.len() > 0 {
        assert(vs.contains(vs.first()));
        assert forall|v: P| vs.drop_first().contains(v) implies #[trigger] v.token_spec() != t by {
            let i = choose|i: int| 0 <= i < vs.drop_first().len() && vs.drop_first()[i] == v;
            assert(vs[i + 1] == v);
        }
        lemma_spec_decode_from_none(vs.drop_first(), t);
    }
}

} // verus!
