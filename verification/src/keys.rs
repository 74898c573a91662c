//! Key derivation: (route, credential) pairs become opaque lookup keys.

use vstd::prelude::*;

verus! {

/// The hex digest that `sha256::digest` returns for the given input.
/// The digest is a pure function of the input characters, so it gets a
/// name rather than a definition; nothing else is assumed of it.
pub uninterp spec fn sha256_of(s: Seq<char>) -> Seq<char>;

/// Relies on sha256::digest: the result is the lower-case hex encoding
/// of the 256-bit SHA-256 digest of the input bytes, so it is 64
/// characters long and depends on the input alone.
#[verifier::external_body]
fn sha256_hex(s: &str) -> (r: String)
    ensures
        r@ == sha256_of(s@),
        r@.len() == 64,
{
    sha256::digest(s)
}

/// The string that is hashed: route and credential joined by a newline,
/// a character no route identifier contains.
pub open spec fn key_material(route: Seq<char>, credential: Seq<char>) -> Seq<char> {
    route + seq!['\n'] + credential
}

/// The derived key for a (route, credential) pair.
pub open spec fn derived_key(route: Seq<char>, credential: Seq<char>) -> Seq<char> {
    sha256_of(key_material(route, credential))
}

/// Derives the opaque lookup key for a (route, credential) pair: the
/// hex SHA-256 digest of the route, a newline separator, and the
/// credential. Pure: the key is a function of the two inputs alone.
pub fn derive(route: &str, credential: &str) -> (key: String)
    ensures
        key@ == derived_key(route@, credential@),
        key@.len() == 64,
{
    let mut material: String = route.to_owned();
    material.append("\n");
    material.append(credential);
    proof {
        reveal_strlit("\n");
        assert(("\n")@ =~= seq!['\n']);
        assert(material@ =~= key_material(route@, credential@));
    }
    sha256_hex(material.as_str())
}

/// True when the string contains no newline; route identifiers satisfy
/// this, which makes the key material unambiguous.
pub open spec fn newline_free(s: Seq<char>) -> bool {
    forall|i: int| 0 <= i < s.len() ==> s[i] != '\n'
}

/// Law: key derivation is deterministic. Two calls with equal inputs
/// produce equal keys.
pub proof fn lemma_derive_deterministic(
    route1: Seq<char>,
    credential1: Seq<char>,
    route2: Seq<char>,
    credential2: Seq<char>,
)
    requires
        route1 == route2,
        credential1 == credential2,
    ensures
        derived_key(route1, credential1) == derived_key(route2, credential2),
{
}

/// Law: the newline separator rules out boundary collisions. As long as
/// routes contain no newline, two distinct (route, credential) pairs
/// hash distinct material, so their keys can only collide if SHA-256
/// itself collides.
pub proof fn lemma_key_material_injective(
    route1: Seq<char>,
    credential1: Seq<char>,
    route2: Seq<char>,
    credential2: Seq<char>,
)
    requires
        newline_free(route1),
        newline_free(route2),
        key_material(route1, credential1) == key_material(route2, credential2),
    ensures
        route1 == route2,
        credential1 == credential2,
{
    let m1 = key_material(route1, credential1);
    let m2 = key_material(route2, credential2);
    assert(m1.len() == route1.len() + 1 + credential1.len());
    if route1.len() < route2.len() {
        assert(m1[route1.len() as int] == '\n');
        assert(m2[route1.len() as int] == route2[route1.len() as int]);
        assert(false);
    }
    if route2.len() < route1.len() {
        assert(m2[route2.len() as int] == '\n');
        assert(m1[route2.len() as int] == route1[route2.len() as int]);
        assert(false);
    }
    assert(route1 =~= route2) by {
        assert(forall|i: int| 0 <= i < route1.len() ==> m1[i] == route1[i] && m2[i] == route2[i]);
    }
    assert(credential1 =~= credential2) by {
        assert(forall|i: int|
            0 <= i < credential1.len()
                ==> m1[route1.len() + 1 + i] == credential1[i] && m2[route2.len() + 1 + i]
                == credential2[i]);
    }
}

} // verus!
