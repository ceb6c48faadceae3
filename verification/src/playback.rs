//! Rendering of the viewer page for one asset.
//!
//! The serving surface substitutes the requested identifier into a
//! fixed page template wherever the placeholder `{{VIDEO_ID}}`
//! occurs. The identifier is an opaque string here; file access for
//! the manifest it references still goes through the resolver.

use vstd::prelude::*;

verus! {

/// The placeholder that marks where the identifier goes.
pub open spec fn placeholder() -> Seq<char> {
    "{{VIDEO_ID}}"@
}

/// The template with every occurrence of the placeholder replaced by
/// `id`: occurrences are found left to right, do not overlap, and
/// replaced text is not rescanned.
pub open spec fn substituted(t: Seq<char>, id: Seq<char>) -> Seq<char>
    decreases t.len(),
{
    if t.len() == 0 {
        t
    } else if t.len() >= 12 && t.take(12) == placeholder() {
        id + substituted(t.skip(12), id)
    } else {
        seq![t[0]] + substituted(t.skip(1), id)
    }
}

/// Render the viewer page: substitute `id` for every occurrence of
/// the placeholder in the page template.
pub fn render_watch_page(template: &str, id: &str) -> (r: String)
    ensures
        r@ == substituted(template@, id@),
{
    let pat = "{{VIDEO_ID}}";
    proof {
        reveal_strlit("{{VIDEO_ID}}");
    }
    let n = template.unicode_len();
    let mut out = String::new();
    let mut i: usize = 0;
    proof {
        assert(template@.skip(0) =~= template@);
        assert(out@ + substituted(template@.skip(0), id@) =~= substituted(template@, id@));
    }
    while i < n
        invariant
            i <= n,
            n == template@.len(),
            pat@ == placeholder(),
            pat@.len() == 12,
            substituted(template@, id@) == out@ + substituted(template@.skip(i as int), id@),
        decreases n - i,
    {
        let ghost rest = template@.skip(i as int);
        let mut m = n - i >= 12;
        if m {
            let mut j: usize = 0;
            while j < 12
                invariant
                    j <= 12,
                    i + 12 <= n,
                    n == template@.len(),
                    pat@ == placeholder(),
                    pat@.len() == 12,
                    m <==> (forall|q: int| 0 <= q < j ==> template@[i + q] == placeholder()[q]),
                decreases 12 - j,
            {
                let a = template.get_char(i + j);
                let b = pat.get_char(j);
                m = m && (a == b);
                j = j + 1;
            }
        }
        if m {
            proof {
                assert(rest.take(12) =~= placeholder());
                assert(rest.len() >= 12);
                assert(substituted(rest, id@) == id@ + substituted(rest.skip(12), id@));
                assert(rest.skip(12) =~= template@.skip(i as int + 12));
                assert((out@ + id@) + substituted(template@.skip(i as int + 12), id@)
                    =~= out@ + substituted(rest, id@));
            }
            out.append(id);
            i = i + 12;
        } else {
            proof {
                if i + 12 <= n {
                    let q = choose|q: int|
                        0 <= q < 12 && template@[i + q] != placeholder()[q];
                    assert(rest.take(12)[q] == template@[i + q]);
                    assert(rest.take(12) != placeholder());
                }
                assert(rest.len() > 0);
                assert(substituted(rest, id@) == seq![rest[0]] + substituted(rest.skip(1), id@));
                assert(rest.skip(1) =~= template@.skip(i as int + 1));
                assert(template@.subrange(i as int, i as int + 1) =~= seq![rest[0]]);
                assert((out@ + seq![rest[0]]) + substituted(template@.skip(i as int + 1), id@)
                    =~= out@ + substituted(rest, id@));
            }
            let c = template.substring_char(i, i + 1);
            out.append(c);
            i = i + 1;
        }
    }
    proof {
        assert(template@.skip(n as int) =~= Seq::<char>::empty());
        assert(substituted(template@.skip(n as int), id@) =~= Seq::<char>::empty());
        assert(out@ + Seq::<char>::empty() =~= out@);
    }
    out
}

} // verus!
