//! Generation of the opaque asset identifier.
//!
//! An identifier is an 11-character string whose characters are drawn
//! independently and uniformly from a fixed 57-character alphabet: the
//! alphanumeric characters with the visually ambiguous glyphs `0`, `O`,
//! `1`, `l` and `I` left out. Identifiers are not guaranteed unique;
//! collisions are possible and unmitigated.

use vstd::prelude::*;
use rand::Rng;

verus! {

/// The fixed 57-character identifier alphabet.
pub open spec fn id_alphabet() -> Seq<char> {
    "ABCDEFGHJKLMNPQRSTUVWXYZabcdefghijkmnopqrstuvwxyz23456789"@
}

/// The alphabet really has 57 characters.
pub proof fn lemma_alphabet_len()
    ensures
        id_alphabet().len() == 57,
{
    reveal_strlit("ABCDEFGHJKLMNPQRSTUVWXYZabcdefghijkmnopqrstuvwxyz23456789");
}

/// No character of the alphabet is a path separator or a dot, so an
/// identifier can never smuggle a path step into a file name built
/// from it.
pub proof fn lemma_alphabet_no_path_chars(c: char)
    requires
        id_alphabet().contains(c),
    ensures
        c != '/' && c != '\\' && c != '.',
{
    reveal_strlit("ABCDEFGHJKLMNPQRSTUVWXYZabcdefghijkmnopqrstuvwxyz23456789");
}

/// A well-formed identifier: length exactly 11 and every character a
/// member of the fixed alphabet.
pub open spec fn valid_id(s: Seq<char>) -> bool {
    &&& s.len() == 11
    &&& forall|i: int| 0 <= i < s.len() ==> id_alphabet().contains(#[trigger] s[i])
}

#[verifier::external_type_specification]
#[verifier::external_body]
pub struct ExThreadRng(rand::rngs::ThreadRng);

/// Relies on `rand::rng`: hands out the process-wide thread-local
/// random generator. Nothing is assumed of its state.
#[verifier::external_body]
fn thread_generator() -> rand::rngs::ThreadRng {
    rand::rng()
}

/// Relies on `rand::Rng::random_range` on a half-open `usize` range:
/// the result lies below the bound. The range must be non-empty, since
/// `random_range` panics on an empty range. Nothing more is assumed of
/// the value: it depends on the generator's state.
#[verifier::external_body]
fn random_index(rng: &mut rand::rngs::ThreadRng, bound: usize) -> (r: usize)
    requires
        bound > 0,
    ensures
        r < bound,
{
    rng.random_range(0..bound)
}

/// Build an identifier from 11 alphabet indices: the alphabet
/// character at each index, in order. This is the deterministic part
/// of generation, so its result is pinned down exactly.
pub fn id_from_indices(indices: &Vec<usize>) -> (r: String)
    requires
        indices@.len() == 11,
        forall|i: int| 0 <= i < indices@.len() ==> indices@[i] < 57,
    ensures
        valid_id(r@),
        r@.len() == indices@.len(),
        forall|i: int| 0 <= i < r@.len() ==> r@[i] == id_alphabet()[indices@[i] as int],
{
    let alphabet = "ABCDEFGHJKLMNPQRSTUVWXYZabcdefghijkmnopqrstuvwxyz23456789";
    proof {
        reveal_strlit("ABCDEFGHJKLMNPQRSTUVWXYZabcdefghijkmnopqrstuvwxyz23456789");
    }
    let mut id = String::new();
    let mut k: usize = 0;
    while k < 11
        invariant
            k <= 11,
            id@.len() == k,
            indices@.len() == 11,
            forall|i: int| 0 <= i < indices@.len() ==> indices@[i] < 57,
            alphabet@ == id_alphabet(),
            alphabet@.len() == 57,
            forall|i: int| 0 <= i < id@.len() ==> id@[i] == id_alphabet()[indices@[i] as int],
        decreases 11 - k,
    {
        let j = indices[k];
        let c = alphabet.substring_char(j, j + 1);
        id.append(c);
        k = k + 1;
    }
    proof {
        assert forall|i: int| 0 <= i < id@.len() implies id_alphabet().contains(
            #[trigger] id@[i],
        ) by {
            assert(0 <= indices@[i] && (indices@[i] as int) < id_alphabet().len());
            assert(id@[i] == id_alphabet()[indices@[i] as int]);
        }
    }
    id
}

/// Produce a fresh identifier: 11 characters, each drawn
/// independently and uniformly from the fixed alphabet. Distinct
/// calls may collide; no uniqueness is promised.
pub fn generate_video_id() -> (r: String)
    ensures
        valid_id(r@),
{
    let mut rng = thread_generator();
    let mut indices: Vec<usize> = Vec::new();
    let mut k: usize = 0;
    while k < 11
        invariant
            k <= 11,
            indices@.len() == k,
            forall|i: int| 0 <= i < indices@.len() ==> indices@[i] < 57,
        decreases 11 - k,
    {
        let j = random_index(&mut rng, 57);
        indices.push(j);
        k = k + 1;
    }
    id_from_indices(&indices)
}

} // verus!
