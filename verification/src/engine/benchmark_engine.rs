//! The standard benchmark: every trial is run, every result kept.

use crate::engine::result::PermutationResult;
use crate::permutation::Permutation;
use vstd::prelude::*;

verus! {

/// What a standard benchmark is to run and what it has got so far.
pub struct BenchmarkEngine {
    pub permutations: Vec<Permutation>,
    pub results: Vec<PermutationResult>,
    pub log_files_directory: String,
}

/// The number of the trial behind the last that a run can go through,
/// with `count` trials in the benchmark and `given` trials at hand.
pub open spec fn run_end(count: nat, given: nat) -> nat {
    if count <= given {
        count
    } else {
        given
    }
}

impl BenchmarkEngine {
    /// A benchmark with nothing to run yet.
    pub fn new(log_files: String) -> (r: Self)
        ensures
            r.permutations@ == Seq::<Permutation>::empty(),
            r.results@ == Seq::<PermutationResult>::empty(),
            r.log_files_directory@ == log_files@,
    {
        BenchmarkEngine {
            permutations: Vec::new(),
            results: Vec::new(),
            log_files_directory: log_files,
        }
    }

    /// Adds a trial behind those that are there.
    pub fn add(&mut self, permutation: Permutation)
        ensures
            final(self).permutations@ == old(self).permutations@.push(permutation),
            final(self).results == old(self).results,
            final(self).log_files_directory == old(self).log_files_directory,
    {
        self.permutations.push(permutation);
    }

    /// Keeps the result of the trial that was run last.
    pub fn add_result(&mut self, result: PermutationResult)
        ensures
            final(self).results@ == old(self).results@.push(result),
            final(self).permutations == old(self).permutations,
            final(self).log_files_directory == old(self).log_files_directory,
    {
        self.results.push(result);
    }

    /// Runs through the trials that are still to run, where `trials[k]` is
    /// what trial `k` gives: every result is kept, in order, until the
    /// trials of the benchmark or the given trials run out.
    pub fn run(&mut self, trials: &Vec<PermutationResult>)
        ensures
            final(self).permutations == old(self).permutations,
            final(self).log_files_directory == old(self).log_files_directory,
            final(self).results@ == (if old(self).results@.len() >= run_end(
                old(self).permutations@.len(),
                trials@.len(),
            ) {
                old(self).results@
            } else {
                old(self).results@ + trials@.subrange(
                    old(self).results@.len() as int,
                    run_end(old(self).permutations@.len(), trials@.len()) as int,
                )
            }),
    {
        let n = self.permutations.len();
        let m = trials.len();
        let end = if n <= m {
            n
        } else {
            m
        };
        let start = self.results.len();
        if start >= end {
            return ;
        }
        let mut i: usize = start;
        assert(self.results@ =~= old(self).results@ + trials@.subrange(start as int, start as int));
        while i < end
            invariant
                start <= i <= end <= m,
                m == trials@.len(),
                start == old(self).results@.len(),
                self.permutations == old(self).permutations,
                self.log_files_directory == old(self).log_files_directory,
                self.results@ == old(self).results@ + trials@.subrange(start as int, i as int),
            decreases end - i,
        {
            let result = trials[i].clone();
            self.results.push(result);
            assert(trials@.subrange(start as int, i + 1) =~= trials@.subrange(
                start as int,
                i as int,
            ).push(trials@[i as int]));
            i += 1;
        }
    }

    /// Whether a trial is still to run: results come one per trial, in
    /// order.
    pub fn next_trial(&self) -> (r: Option<usize>)
        ensures
            r == (if self.results@.len() < self.permutations@.len() {
                Some(self.results@.len() as usize)
            } else {
                None
            }),
    {
        if self.results.len() < self.permutations.len() {
            Some(self.results.len())
        } else {
            None
        }
    }
}

} // verus!
