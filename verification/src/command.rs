//! The final command: the runtime executable, the built flags, the literal
//! `-jar`, the archive path, then the forwarded command-line arguments,
//! unchanged and in order. Built once and never mutated afterwards.

use vstd::prelude::*;
use crate::text::lemma_views_push;
use crate::text::views;

verus! {

/// The fully resolved command, ready to spawn.
pub struct CommandSpec {
    /// The runtime executable to start.
    pub java: String,
    /// The built runtime flags, in order.
    pub flags: Vec<String>,
    /// The resolved archive path.
    pub archive: String,
    /// The process's own command-line arguments, forwarded verbatim.
    pub forwarded: Vec<String>,
}

/// The argument tokens handed to the runtime after the program itself: the
/// flags, the literal `-jar`, the archive path, then the forwarded
/// arguments.
pub open spec fn tokens_spec(
    flags: Seq<Seq<char>>,
    archive: Seq<char>,
    forwarded: Seq<Seq<char>>,
) -> Seq<Seq<char>> {
    flags + seq!["-jar"@, archive] + forwarded
}

impl CommandSpec {
    /// Lays out the argument list of the command.
    pub fn arg_tokens(&self) -> (r: Vec<String>)
        ensures
            views(r@) == tokens_spec(views(self.flags@), self.archive@, views(self.forwarded@)),
    {
        let mut r: Vec<String> = Vec::new();
        proof {
            assert(views(r@) =~= Seq::<Seq<char>>::empty());
            assert(views(self.flags@).take(0) =~= Seq::<Seq<char>>::empty());
        }
        let mut i: usize = 0;
        while i < self.flags.len()
            invariant
                i <= self.flags@.len(),
                views(r@) == views(self.flags@).take(i as int),
            decreases self.flags@.len() - i,
        {
            let ghost before = r@;
            r.push(self.flags[i].clone());
            proof {
                lemma_views_push(before, r@[before.len() as int]);
                assert(views(self.flags@).take(i + 1) =~= views(self.flags@).take(i as int).push(
                    self.flags@[i as int]@,
                ));
            }
            i += 1;
        }
        proof {
            assert(views(self.flags@).take(self.flags@.len() as int) =~= views(self.flags@));
        }
        let ghost before = r@;
        r.push("-jar".to_owned());
        proof {
            lemma_views_push(before, r@[before.len() as int]);
        }
        let ghost before2 = r@;
        r.push(self.archive.clone());
        proof {
            lemma_views_push(before2, r@[before2.len() as int]);
        }
        let mut j: usize = 0;
        proof {
            assert(views(self.forwarded@).take(0) =~= Seq::<Seq<char>>::empty());
            assert(views(r@) =~= views(self.flags@) + seq!["-jar"@, self.archive@]);
        }
        while j < self.forwarded.len()
            invariant
                j <= self.forwarded@.len(),
                views(r@) == views(self.flags@) + seq!["-jar"@, self.archive@] + views(
                    self.forwarded@,
                ).take(j as int),
            decreases self.forwarded@.len() - j,
        {
            let ghost before3 = r@;
            r.push(self.forwarded[j].clone());
            proof {
                lemma_views_push(before3, r@[before3.len() as int]);
                assert(views(self.forwarded@).take(j + 1) =~= views(self.forwarded@).take(
                    j as int,
                ).push(self.forwarded@[j as int]@));
                assert(views(r@) =~= views(self.flags@) + seq!["-jar"@, self.archive@] + views(
                    self.forwarded@,
                ).take(j + 1));
            }
            j += 1;
        }
        proof {
            assert(views(self.forwarded@).take(self.forwarded@.len() as int) =~= views(
                self.forwarded@,
            ));
        }
        r
    }
}

/// The forwarded arguments appear among the final tokens unchanged and in
/// order, directly after the archive path token, which itself follows the
/// `-jar` token after the flags.
pub proof fn lemma_forwarded_after_archive(
    flags: Seq<Seq<char>>,
    archive: Seq<char>,
    forwarded: Seq<Seq<char>>,
)
    ensures
        tokens_spec(flags, archive, forwarded).len() == flags.len() + 2 + forwarded.len(),
        tokens_spec(flags, archive, forwarded)[flags.len() as int] == "-jar"@,
        tokens_spec(flags, archive, forwarded)[flags.len() as int + 1] == archive,
        forall|i: int|
            0 <= i < forwarded.len() ==> tokens_spec(flags, archive, forwarded)[flags.len() as int + 2 + i]
                == forwarded[i],
{
}

} // verus!
