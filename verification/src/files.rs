//! Candidate filenames the resolver probes for an entry file: the cross
//! product of four fixed prefixes with the recognized source extensions.

use vstd::prelude::*;
use vstd::string::*;
use vstd::arithmetic::div_mod::{
    lemma_div_pos_is_pos, lemma_fundamental_div_mod_converse, lemma_mod_bound,
    lemma_multiply_divide_lt,
};

verus! {

/// The four fixed filename prefixes, in probe order.
pub open spec fn spec_prefix(i: int) -> Seq<char> {
    if i == 0 {
        "middleware."@
    } else if i == 1 {
        "src/middleware."@
    } else if i == 2 {
        "proxy."@
    } else {
        "src/proxy."@
    }
}

/// The candidate filenames for the given extensions: every prefix paired
/// with every extension, prefix-major, each entry `prefix + extension`.
pub open spec fn spec_middleware_files(exts: Seq<Seq<char>>) -> Seq<Seq<char>> {
    Seq::new(
        (4 * exts.len()) as nat,
        |i: int| spec_prefix(i / exts.len() as int) + exts[i % exts.len() as int],
    )
}

/// The candidate filenames the resolver should probe for an entry file,
/// one per (prefix, extension) pair; duplicates are kept as the cross
/// product yields them. Pure and deterministic in its input.
pub fn middleware_files(page_extensions: &Vec<String>) -> (files: Vec<String>)
    ensures
        files.deep_view() == spec_middleware_files(page_extensions.deep_view()),
{
    let n: usize = page_extensions.len();
    let mut files: Vec<String> = Vec::new();
    let mut p: usize = 0;
    while p < 4
        invariant
            0 <= p <= 4,
            n == page_extensions@.len(),
            files@.len() == p * n,
            forall|i: int|
                0 <= i < files@.len() ==> #[trigger] files@[i]@ == spec_prefix(i / n as int)
                    + page_extensions@[i % n as int]@,
        decreases 4 - p,
    {
        let prefix: &str = match p {
            0 => "middleware.",
            1 => "src/middleware.",
            2 => "proxy.",
            _ => "src/proxy.",
        };
        assert(prefix@ == spec_prefix(p as int));
        let mut e: usize = 0;
        while e < n
            invariant
                0 <= e <= n,
                p < 4,
                n == page_extensions@.len(),
                prefix@ == spec_prefix(p as int),
                files@.len() == p * n + e,
                forall|i: int|
                    0 <= i < files@.len() ==> #[trigger] files@[i]@ == spec_prefix(i / n as int)
                        + page_extensions@[i % n as int]@,
            decreases n - e,
        {
            let name: String = String::from_str(prefix).concat(page_extensions[e].as_str());
            proof {
                lemma_fundamental_div_mod_converse(
                    p as int * n as int + e as int,
                    n as int,
                    p as int,
                    e as int,
                );
            }
            files.push(name);
            e = e + 1;
        }
        proof {
            assert((p + 1) as int * n as int == p as int * n as int + n as int)
                by (nonlinear_arith);
        }
        p = p + 1;
    }
    proof {
        let exts = page_extensions.deep_view();
        assert forall|i: int| 0 <= i < files@.len() implies files.deep_view()[i]
            == spec_middleware_files(exts)[i] by {
            assert(files.deep_view()[i] == files@[i]@);
            assert(exts[i % n as int] == page_extensions@[i % n as int]@);
        }
        assert(files.deep_view() =~= spec_middleware_files(exts));
    }
    files
}

/// The entry at index `i` is the prefix and extension that `i` selects:
/// one of the four fixed prefixes followed by one of the extensions.
pub open spec fn spec_files_entry_ok(exts: Seq<Seq<char>>, i: int) -> bool {
    let p = i / exts.len() as int;
    let e = i % exts.len() as int;
    0 <= p < 4 && 0 <= e < exts.len() && spec_middleware_files(exts)[i] == spec_prefix(p)
        + exts[e]
}

/// Shape of the candidate list: exactly four entries per extension, every
/// entry one of the four fixed prefixes followed by one of the extensions,
/// and no entries at all for no extensions.
pub proof fn lemma_middleware_files_shape(exts: Seq<Seq<char>>)
    ensures
        spec_middleware_files(exts).len() == 4 * exts.len(),
        forall|i: int| 0 <= i < 4 * exts.len() ==> #[trigger] spec_files_entry_ok(exts, i),
        exts.len() == 0 ==> spec_middleware_files(exts) =~= Seq::<Seq<char>>::empty(),
{
    assert forall|i: int| 0 <= i < 4 * exts.len() implies #[trigger] spec_files_entry_ok(
        exts,
        i,
    ) by {
        let n = exts.len() as int;
        lemma_mod_bound(i, n);
        lemma_div_pos_is_pos(i, n);
        lemma_multiply_divide_lt(i, n, 4);
        assert(spec_middleware_files(exts)[i] == spec_prefix(i / n) + exts[i % n]);
    }
}

} // verus!
