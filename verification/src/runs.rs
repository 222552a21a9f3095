//! Splitting a string into maximal runs of same-class characters.

use vstd::prelude::*;
use vstd::string::StrSliceExecFns;

use crate::class::char_class_of;
use crate::class::HangulCharClass;

verus! {

/// The characters of a sequence of runs, concatenated in order.
pub open spec fn concat_runs<'a>(runs: Seq<(HangulCharClass, &'a str)>) -> Seq<char>
    decreases runs.len(),
{
    if runs.len() == 0 {
        Seq::empty()
    } else {
        concat_runs(runs.drop_last()) + runs.last().1@
    }
}

/// Every run is non-empty, and every character of a run has the run's class.
pub open spec fn runs_well_formed<'a>(runs: Seq<(HangulCharClass, &'a str)>) -> bool {
    forall|i: int|
        0 <= i < runs.len() ==> (#[trigger] runs[i]).1@.len() > 0 && (forall|j: int|
            0 <= j < runs[i].1@.len() ==> char_class_of(#[trigger] runs[i].1@[j]) == runs[i].0)
}

/// No two consecutive runs share a class.
pub open spec fn runs_maximal<'a>(runs: Seq<(HangulCharClass, &'a str)>) -> bool {
    forall|i: int| 0 <= i < runs.len() - 1 ==> (#[trigger] runs[i]).0 != runs[i + 1].0
}

proof fn lemma_concat_runs_push<'a>(
    runs: Seq<(HangulCharClass, &'a str)>,
    run: (HangulCharClass, &'a str),
)
    ensures
        concat_runs(runs.push(run)) == concat_runs(runs) + run.1@,
{
    assert(runs.push(run).drop_last() =~= runs);
    assert(runs.push(run).last() == run);
}

impl HangulCharClass {
    /// Splits a string into maximal contiguous runs of same-class characters,
    /// in order. The runs concatenate back to the input exactly, each run is
    /// non-empty and uniform in class, and consecutive runs differ in class.
    pub fn split<'a>(value: &'a str) -> (runs: Vec<(HangulCharClass, &'a str)>)
        ensures
            concat_runs(runs@) == value@,
            runs_well_formed(runs@),
            runs_maximal(runs@),
            runs@.len() == 0 <==> value@.len() == 0,
    {
        let n = value.unicode_len();
        let mut runs: Vec<(HangulCharClass, &'a str)> = Vec::new();
        if n == 0 {
            assert(concat_runs(runs@) =~= value@);
            return runs;
        }
        let mut start: usize = 0;
        let mut class = HangulCharClass::from(value.get_char(0));
        let mut i: usize = 1;
        while i < n
            invariant
                n == value@.len(),
                1 <= i <= n,
                start < i,
                concat_runs(runs@) == value@.subrange(0, start as int),
                runs_well_formed(runs@),
                runs_maximal(runs@),
                forall|j: int| start <= j < i ==> char_class_of(#[trigger] value@[j]) == class,
                runs@.len() > 0 ==> runs@.last().0 != class,
            decreases n - i,
        {
            let c = value.get_char(i);
            let c_class = HangulCharClass::from(c);
            if c_class != class {
                let piece = value.substring_char(start, i);
                proof {
                    lemma_concat_runs_push(runs@, (class, piece));
                    assert(value@.subrange(0, start as int) + value@.subrange(
                        start as int,
                        i as int,
                    ) =~= value@.subrange(0, i as int));
                }
                runs.push((class, piece));
                start = i;
                class = c_class;
            }
            i += 1;
        }
        let piece = value.substring_char(start, n);
        proof {
            lemma_concat_runs_push(runs@, (class, piece));
            assert(value@.subrange(0, start as int) + value@.subrange(start as int, n as int)
                =~= value@);
        }
        runs.push((class, piece));
        runs
    }
}

} // verus!
