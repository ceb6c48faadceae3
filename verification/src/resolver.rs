//! Mapping an inbound request name onto a file location inside the
//! correct asset directory.
//!
//! This is the security-sensitive part of the serving surface: it runs
//! on every inbound file request and must never yield a path outside
//! `videos/<extractedId>/`. A request passes a combined
//! length/extension rule (turned away only when shorter than 15
//! characters and not ending in `.ts`), must be long enough to hold an
//! identifier prefix, and must hold no path separator and no
//! parent-directory reference. The identifier is the fixed-width
//! prefix of the first 11 characters; the candidate path is
//! `videos/<extractedId>/<requestedName>`.
//!
//! A name shorter than 15 characters that ends in `.ts` is accepted
//! whenever it is at least 11 characters long; one shorter than 11
//! characters is always turned away, since no identifier prefix can be
//! extracted from it.

use vstd::prelude::*;
use crate::conversion::{decimal_digits, lemma_decimal_digits_chars};
use crate::identifier::{id_alphabet, lemma_alphabet_no_path_chars, valid_id};

verus! {

/// The name ends with the segment extension `.ts`.
pub open spec fn ends_with_ts(name: Seq<char>) -> bool {
    name.len() >= 3 && name.subrange(name.len() - 3, name.len() as int) == ".ts"@
}

/// The combined length/extension rule: a request is turned away only
/// when it is shorter than 15 characters and does not end in `.ts`.
pub open spec fn length_rule(name: Seq<char>) -> bool {
    !(name.len() < 15 && !ends_with_ts(name))
}

/// A path separator character.
pub open spec fn is_separator(c: char) -> bool {
    c == '/' || c == '\\'
}

/// The name holds a path separator somewhere.
pub open spec fn has_separator(name: Seq<char>) -> bool {
    exists|i: int| 0 <= i < name.len() && is_separator(#[trigger] name[i])
}

/// The name holds a parent-directory reference: two adjacent dots.
pub open spec fn has_parent_ref(name: Seq<char>) -> bool {
    exists|i: int|
        0 <= i && i + 2 <= name.len() && #[trigger] name[i] == '.' && name[i + 1] == '.'
}

/// A request name the resolver accepts: long enough to hold an
/// identifier prefix, passing the length/extension rule, and clean of
/// separators and parent-directory references.
pub open spec fn accepted_name(name: Seq<char>) -> bool {
    &&& name.len() >= 11
    &&& length_rule(name)
    &&& !has_separator(name)
    &&& !has_parent_ref(name)
}

/// The identifier extracted from an accepted request: its first 11
/// characters.
pub open spec fn extracted_id(name: Seq<char>) -> Seq<char> {
    name.take(11)
}

/// The candidate path for an accepted request:
/// `videos/<extractedId>/<requestedName>`.
pub open spec fn resolved_path(name: Seq<char>) -> Seq<char> {
    "videos/"@ + extracted_id(name) + "/"@ + name
}

/// Map a request name to the candidate path inside the asset
/// directory, or turn the request away. Whether the file exists there
/// is the caller's affair: an open failure collapses to the same
/// outward "not found".
pub fn resolve(name: &str) -> (r: Option<String>)
    ensures
        r is Some <==> accepted_name(name@),
        r matches Some(p) ==> p@ == resolved_path(name@),
{
    let n = name.unicode_len();
    if n < 11 {
        return None;
    }
    let ts = name.get_char(n - 3) == '.' && name.get_char(n - 2) == 't'
        && name.get_char(n - 1) == 's';
    proof {
        reveal_strlit(".ts");
        if ts {
            assert(name@.subrange(n - 3, n as int) =~= ".ts"@);
        }
    }
    if n < 15 && !ts {
        proof {
            reveal_strlit(".ts");
            if ends_with_ts(name@) {
                assert(name@[n - 3] == name@.subrange(n - 3, n as int)[0]);
                assert(name@[n - 2] == name@.subrange(n - 3, n as int)[1]);
                assert(name@[n - 1] == name@.subrange(n - 3, n as int)[2]);
            }
        }
        return None;
    }
    let mut i: usize = 0;
    while i < n
        invariant
            n == name@.len(),
            i <= n,
            forall|j: int| 0 <= j < i ==> !is_separator(#[trigger] name@[j]),
        decreases n - i,
    {
        let c = name.get_char(i);
        if c == '/' || c == '\\' {
            proof {
                assert(is_separator(name@[i as int]));
            }
            return None;
        }
        i = i + 1;
    }
    let mut k: usize = 0;
    while k + 1 < n
        invariant
            n == name@.len(),
            k < n,
            forall|j: int| 0 <= j < k ==> !(#[trigger] name@[j] == '.' && name@[j + 1] == '.'),
        decreases n - k,
    {
        if name.get_char(k) == '.' && name.get_char(k + 1) == '.' {
            return None;
        }
        k = k + 1;
    }
    let id = name.substring_char(0, 11);
    let mut p = String::from_str("videos/");
    p.append(id);
    p.append("/");
    p.append(name);
    proof {
        assert(p@ =~= resolved_path(name@));
    }
    Some(p)
}

/// Build the manifest request name `<v>.m3u8` for an identifier
/// received from a playback request, and resolve it like any other
/// request name.
pub fn resolve_manifest(v: &str) -> (r: Option<String>)
    ensures
        r is Some <==> accepted_name(v@ + ".m3u8"@),
        r matches Some(p) ==> p@ == resolved_path(v@ + ".m3u8"@),
{
    let mut name = String::from_str(v);
    name.append(".m3u8");
    resolve(name.as_str())
}

/// Law: any request of length at least 15 that does not end in `.ts`
/// and is clean of separators and parent-directory references is
/// accepted, and the identifier extracted from it is exactly its first
/// 11 characters.
pub proof fn lemma_long_names_accepted(name: Seq<char>)
    requires
        name.len() >= 15,
        !ends_with_ts(name),
        !has_separator(name),
        !has_parent_ref(name),
    ensures
        accepted_name(name),
        extracted_id(name) == name.take(11),
{
}

/// Law: a request that holds a path separator or a parent-directory
/// reference is never accepted, so the resolver never yields a path
/// outside `videos/<extractedId>/` for a crafted name.
pub proof fn lemma_traversal_rejected(name: Seq<char>)
    requires
        has_separator(name) || has_parent_ref(name),
    ensures
        !accepted_name(name),
{
}

/// Law: a name shorter than 15 characters that ends in `.ts` (and is
/// clean of separators and parent-directory references) is accepted
/// exactly when it is at least 11 characters long.
pub proof fn lemma_short_ts_names(name: Seq<char>)
    requires
        name.len() < 15,
        ends_with_ts(name),
        !has_separator(name),
        !has_parent_ref(name),
    ensures
        accepted_name(name) <==> name.len() >= 11,
{
}

/// Law: the manifest request name `<id>.m3u8` of every well-formed
/// identifier is accepted, and the identifier extracted from it is
/// that identifier itself: the serving surface can always address an
/// asset's manifest.
pub proof fn lemma_manifest_request_accepted(id: Seq<char>)
    requires
        valid_id(id),
    ensures
        accepted_name(id + ".m3u8"@),
        extracted_id(id + ".m3u8"@) == id,
{
    reveal_strlit(".m3u8");
    let name = id + ".m3u8"@;
    assert(name.len() == 16);
    assert forall|i: int| 0 <= i < name.len() implies !is_separator(name[i]) && (i != 11
        ==> name[i] != '.') by {
        if i < 11 {
            assert(name[i] == id[i]);
            assert(id_alphabet().contains(id[i]));
            lemma_alphabet_no_path_chars(id[i]);
        } else {
            assert(name[i] == ".m3u8"@[i - 11]);
        }
    }
    assert(!has_separator(name));
    assert(!has_parent_ref(name)) by {
        if has_parent_ref(name) {
            let i = choose|i: int|
                0 <= i && i + 2 <= name.len() && #[trigger] name[i] == '.' && name[i + 1] == '.';
            assert(i == 11 && i + 1 == 11);
        }
    }
    assert(extracted_id(name) =~= id);
}

/// Law: the segment request name `<id><n>.ts` of every well-formed
/// identifier is accepted, and the identifier extracted from it is
/// that identifier itself: the serving surface can address every
/// segment file the conversion names.
pub proof fn lemma_segment_request_accepted(id: Seq<char>, n: nat)
    requires
        valid_id(id),
    ensures
        accepted_name(id + decimal_digits(n) + ".ts"@),
        extracted_id(id + decimal_digits(n) + ".ts"@) == id,
{
    reveal_strlit(".ts");
    reveal_strlit("0123456789");
    lemma_decimal_digits_chars(n);
    let name = id + decimal_digits(n) + ".ts"@;
    let k = decimal_digits(n).len() as int;
    assert(name.len() == 14 + k);
    assert(name.subrange(name.len() - 3, name.len() as int) =~= ".ts"@);
    assert forall|i: int| 0 <= i < name.len() implies !is_separator(name[i]) && (name[i] == '.'
        ==> i == name.len() - 3) by {
        if i < 11 {
            assert(name[i] == id[i]);
            assert(id_alphabet().contains(id[i]));
            lemma_alphabet_no_path_chars(id[i]);
        } else if i < 11 + k {
            let c = decimal_digits(n)[i - 11];
            assert(name[i] == c);
            assert("0123456789"@.contains(c));
            let q = choose|q: int| 0 <= q < "0123456789"@.len() && "0123456789"@[q] == c;
            assert(!is_separator(c) && c != '.');
        } else {
            assert(name[i] == ".ts"@[i - 11 - k]);
        }
    }
    assert(!has_separator(name));
    assert(!has_parent_ref(name)) by {
        if has_parent_ref(name) {
            let i = choose|i: int|
                0 <= i && i + 2 <= name.len() && #[trigger] name[i] == '.' && name[i + 1] == '.';
            assert(i == name.len() - 3 && i + 1 == name.len() - 3);
        }
    }
    assert(extracted_id(name) =~= id);
}

/// Law: for an accepted request, the extracted identifier itself is
/// clean of separators and parent-directory references, since it is a
/// prefix of the request name.
pub proof fn lemma_extracted_id_clean(name: Seq<char>)
    requires
        accepted_name(name),
    ensures
        !has_separator(extracted_id(name)),
        !has_parent_ref(extracted_id(name)),
{
    assert forall|j: int| 0 <= j < extracted_id(name).len() implies
        extracted_id(name)[j] == name[j] by {}
    if has_separator(extracted_id(name)) {
        let j = choose|j: int|
            0 <= j < extracted_id(name).len() && is_separator(#[trigger] extracted_id(name)[j]);
        assert(is_separator(name[j]));
    }
    if has_parent_ref(extracted_id(name)) {
        let j = choose|j: int|
            0 <= j && j + 2 <= extracted_id(name).len() && #[trigger] extracted_id(name)[j] == '.'
                && extracted_id(name)[j + 1] == '.';
        assert(name[j] == '.' && name[j + 1] == '.');
    }
}

} // verus!
