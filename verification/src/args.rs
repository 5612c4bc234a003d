//! Turns populated settings into the ordered list of runtime flags: initial
//! heap, maximum heap, stack size, then the extra flags in their configured
//! order. Absent fields contribute no flag.

use vstd::prelude::*;
use vstd::string::StringExecFns;
use crate::settings::Settings;
use crate::text::dec_digits;
use crate::text::lemma_views_push;
use crate::text::u32_to_string;
use crate::text::views;

verus! {

/// The flag setting the initial heap size to `n` megabytes.
pub open spec fn init_heap_flag(n: nat) -> Seq<char> {
    "-Xms"@ + dec_digits(n) + "m"@
}

/// The flag setting the maximum heap size to `n` megabytes.
pub open spec fn max_heap_flag(n: nat) -> Seq<char> {
    "-Xmx"@ + dec_digits(n) + "m"@
}

/// The flag setting the thread stack size to `n` megabytes.
pub open spec fn stack_flag(n: nat) -> Seq<char> {
    "-Xss"@ + dec_digits(n) + "m"@
}

/// The size flags contributed by the three numeric settings, in their fixed
/// order.
pub open spec fn heap_flags(s: Settings) -> Seq<Seq<char>> {
    (match s.initial_heap_size {
        Some(n) => seq![init_heap_flag(n as nat)],
        None => Seq::<Seq<char>>::empty(),
    }) + (match s.maximum_heap_size {
        Some(n) => seq![max_heap_flag(n as nat)],
        None => Seq::<Seq<char>>::empty(),
    }) + (match s.thread_stack_size {
        Some(n) => seq![stack_flag(n as nat)],
        None => Seq::<Seq<char>>::empty(),
    })
}

/// The extra raw flags from the configuration, in their configured order.
pub open spec fn extra_args(s: Settings) -> Seq<Seq<char>> {
    match s.java_args {
        Some(v) => views(v@),
        None => Seq::<Seq<char>>::empty(),
    }
}

/// Everything the argument builder yields for `s`.
pub open spec fn java_args_spec(s: Settings) -> Seq<Seq<char>> {
    heap_flags(s) + extra_args(s)
}

fn size_flag(prefix: &str, n: u32) -> (r: String)
    ensures
        r@ == prefix@ + dec_digits(n as nat) + "m"@,
{
    let mut s = prefix.to_owned();
    let d = u32_to_string(n);
    s.append(d.as_str());
    s.append("m");
    proof {
        assert(s@ =~= prefix@ + dec_digits(n as nat) + "m"@);
    }
    s
}

/// Builds the ordered flag list for `s`: initial heap, maximum heap, stack
/// size (each only if set), then the extra flags in their configured order.
pub fn build_java_args(s: &Settings) -> (r: Vec<String>)
    ensures
        views(r@) == java_args_spec(*s),
{
    let mut r: Vec<String> = Vec::new();
    proof {
        assert(views(r@) =~= Seq::<Seq<char>>::empty());
    }
    if let Some(n) = s.initial_heap_size {
        let ghost before = r@;
        r.push(size_flag("-Xms", n));
        proof {
            lemma_views_push(before, r@[before.len() as int]);
        }
    }
    if let Some(n) = s.maximum_heap_size {
        let ghost before = r@;
        r.push(size_flag("-Xmx", n));
        proof {
            lemma_views_push(before, r@[before.len() as int]);
        }
    }
    if let Some(n) = s.thread_stack_size {
        let ghost before = r@;
        r.push(size_flag("-Xss", n));
        proof {
            lemma_views_push(before, r@[before.len() as int]);
        }
    }
    proof {
        assert(views(r@) =~= heap_flags(*s));
    }
    if let Some(v) = &s.java_args {
        let mut i: usize = 0;
        while i < v.len()
            invariant
                i <= v@.len(),
                views(r@) =~= heap_flags(*s) + views(v@).take(i as int),
            decreases v@.len() - i,
        {
            let ghost before = r@;
            r.push(v[i].clone());
            proof {
                lemma_views_push(before, r@[before.len() as int]);
                assert(views(v@).take(i + 1) =~= views(v@).take(i as int).push(v@[i as int]@));
                assert(views(r@) =~= heap_flags(*s) + views(v@).take(i + 1));
            }
            i += 1;
        }
        proof {
            assert(views(v@).take(v@.len() as int) =~= views(v@));
            assert(views(r@) =~= java_args_spec(*s));
        }
    } else {
        proof {
            assert(views(r@) =~= java_args_spec(*s));
        }
    }
    r
}

/// The number of flags an optional numeric setting contributes.
pub open spec fn count_opt(o: Option<u32>) -> int {
    if o is Some {
        1
    } else {
        0
    }
}

/// With only the initial heap size set, the builder yields exactly one flag:
/// the initial-heap flag for that value.
pub proof fn lemma_only_initial_heap(s: Settings, n: u32)
    requires
        s.initial_heap_size == Some(n),
        s.maximum_heap_size is None,
        s.thread_stack_size is None,
        s.java_args is None,
    ensures
        java_args_spec(s) =~= seq![init_heap_flag(n as nat)],
{
}

/// The flags always come in the fixed order — initial heap, maximum heap,
/// stack size, then the extra flags in their configured order — whatever
/// subset of the settings is present.
pub proof fn lemma_flag_order(s: Settings)
    ensures
        java_args_spec(s).len() == count_opt(s.initial_heap_size) + count_opt(s.maximum_heap_size)
            + count_opt(s.thread_stack_size) + extra_args(s).len(),
        s.initial_heap_size matches Some(n) ==> java_args_spec(s)[0] == init_heap_flag(n as nat),
        s.maximum_heap_size matches Some(n) ==> java_args_spec(s)[count_opt(s.initial_heap_size)]
            == max_heap_flag(n as nat),
        s.thread_stack_size matches Some(n) ==> java_args_spec(s)[count_opt(s.initial_heap_size)
            + count_opt(s.maximum_heap_size)] == stack_flag(n as nat),
        forall|i: int|
            0 <= i < extra_args(s).len() ==> java_args_spec(s)[count_opt(s.initial_heap_size)
                + count_opt(s.maximum_heap_size) + count_opt(s.thread_stack_size) + i]
                == extra_args(s)[i],
{
}

} // verus!
