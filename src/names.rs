//! Stable metric names derived from a span's target and name.
use vstd::prelude::*;

verus! {

/// `s` with every `::` separator, read from the left, replaced by `_`.
pub open spec fn flatten_separators(s: Seq<char>) -> Seq<char>
    decreases s.len(),
{
    if s.len() == 0 {
        s
    } else if s.len() >= 2 && s[0] == ':' && s[1] == ':' {
        seq!['_'] + flatten_separators(s.skip(2))
    } else {
        seq![s[0]] + flatten_separators(s.skip(1))
    }
}

/// The metric name of a span: its flattened target, `_`, then its name.
pub open spec fn metric_name(target: Seq<char>, name: Seq<char>) -> Seq<char> {
    flatten_separators(target) + seq!['_'] + name
}

/// Derives the metric name of a span from its target and name
/// (`app::worker` and `shave` give `app_worker_shave`).
pub fn derive_metric_name(target: &str, name: &str) -> (r: String)
    ensures
        r@ == metric_name(target@, name@),
{
    let len = target.unicode_len();
    let mut out = String::new();
    let mut i: usize = 0;
    assert(target@.skip(0) =~= target@);
    assert(out@ + target@ =~= target@);
    proof {
        reveal_strlit("_");
    }
    while i < len
        invariant
            len == target@.len(),
            i <= len,
            flatten_separators(target@) == out@ + flatten_separators(target@.skip(i as int)),
        decreases len - i,
    {
        let rest = Ghost(target@.skip(i as int));
        if i + 1 < len && target.get_char(i) == ':' && target.get_char(i + 1) == ':' {
            assert(rest@.skip(2) =~= target@.skip(i + 2));
            proof {
                reveal_strlit("_");
            }
            assert(out@ + flatten_separators(rest@) =~= (out@ + seq!['_']) + flatten_separators(
                rest@.skip(2),
            ));
            out.append("_");
            i = i + 2;
        } else {
            let piece = target.substring_char(i, i + 1);
            assert(rest@.skip(1) =~= target@.skip(i + 1));
            assert(piece@ =~= seq![rest@[0]]);
            assert(out@ + flatten_separators(rest@) =~= (out@ + piece@) + flatten_separators(
                rest@.skip(1),
            ));
            out.append(piece);
            i = i + 1;
        }
    }
    assert(target@.skip(len as int) =~= Seq::<char>::empty());
    assert(out@ + flatten_separators(target@.skip(len as int)) =~= out@);
    out.append("_");
    out.append(name);
    out
}

} // verus!
