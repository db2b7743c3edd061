//! Completion of the input line: the names of commands where the line
//! begins one, else paths of the file system.

use vstd::prelude::*;
use vstd::string::StringSliceAdditionalSpecFns;
use vstd::utf8::encode_utf8;
use crate::text::{is_prefix_of, starts_with};

verus! {

/// The helper of the line editor: the names of the commands it completes.
#[derive(Debug, Clone, Default, PartialEq, Eq)]
pub struct CliHelper {
    pub commands: Vec<String>,
}

/// A candidate: what is displayed, and what replaces the line's text.
#[derive(Debug, Clone, PartialEq, Eq)]
pub struct Candidate {
    pub display: String,
    pub replacement: String,
}

/// What completes the line.
#[derive(Debug, Clone, PartialEq, Eq)]
pub enum Completion {
    /// The paths that the file system offers; the caller looks them up.
    Paths,
    /// These command names, replacing the line from `start` on.
    Commands { start: usize, candidates: Vec<Candidate> },
}

/// The line is empty or ends with a blank: a new argument begins.
pub open spec fn begins_argument(line: Seq<u8>) -> bool {
    line.len() == 0 || line.last() == 0x20u8
}

/// The test for a command name: it begins with the line.
pub open spec fn begins_with(line: Seq<u8>) -> spec_fn(Seq<char>) -> bool {
    |name: Seq<char>| is_prefix_of(line, encode_utf8(name))
}

/// The command names that begin with the line, in their given order.
pub open spec fn completions_of(commands: Seq<Seq<char>>, line: Seq<u8>) -> Seq<Seq<char>> {
    commands.filter(begins_with(line))
}

/// The names that the candidates display.
pub open spec fn displayed(candidates: Seq<Candidate>) -> Seq<Seq<char>> {
    candidates.map_values(|c: Candidate| c.display@)
}

/// The names that the candidates put in the line's place.
pub open spec fn replacing(candidates: Seq<Candidate>) -> Seq<Seq<char>> {
    candidates.map_values(|c: Candidate| c.replacement@)
}

impl CliHelper {
    /// A helper that completes these command names.
    pub fn new(commands: Vec<String>) -> (helper: CliHelper)
        ensures
            helper.commands == commands,
    {
        CliHelper { commands }
    }

    /// Completes the line. Where a new argument begins, or no command
    /// name begins with the line, paths complete it; else the command
    /// names that begin with the line do, each displayed and inserted as
    /// it is, from the line's start. The cursor's position counts for
    /// path completion only.
    pub fn complete(&self, line: &str, pos: usize) -> (completion: Completion)
        ensures
            match completion {
                Completion::Paths => begins_argument(line.spec_bytes()) || completions_of(
                    self.commands.deep_view(),
                    line.spec_bytes(),
                ).len() == 0,
                Completion::Commands { start, candidates } => {
                    &&& !begins_argument(line.spec_bytes())
                    &&& start == 0
                    &&& candidates.len() > 0
                    &&& displayed(candidates@) == completions_of(
                        self.commands.deep_view(),
                        line.spec_bytes(),
                    )
                    &&& replacing(candidates@) == displayed(candidates@)
                },
            },
    {
        let typed: &[u8] = line.as_bytes();
        if typed.len() == 0 || typed[typed.len() - 1] == 0x20u8 {
            return Completion::Paths;
        }
        let ghost names = self.commands.deep_view();
        let ghost test = begins_with(line.spec_bytes());
        let mut candidates: Vec<Candidate> = Vec::new();
        let mut i: usize = 0;
        proof {
            assert(names.take(0) =~= Seq::<Seq<char>>::empty());
            reveal(Seq::filter);
            assert(displayed(candidates@) =~= names.take(0).filter(test));
            assert(replacing(candidates@) =~= displayed(candidates@));
        }
        while i < self.commands.len()
            invariant
                i <= self.commands.len(),
                names == self.commands.deep_view(),
                test == begins_with(line.spec_bytes()),
                typed@ == line.spec_bytes(),
                displayed(candidates@) == names.take(i as int).filter(test),
                replacing(candidates@) == displayed(candidates@),
            decreases self.commands.len() - i,
        {
            let name: &String = &self.commands[i];
            let met = starts_with(name.as_str().as_bytes(), typed);
            proof {
                assert(names[i as int] == name@);
                assert(names.take(i + 1) =~= names.take(i as int).push(names[i as int]));
                names.take(i as int).lemma_filter_push(names[i as int], test);
                assert(met == test(names[i as int]));
            }
            if met {
                let ghost before = candidates@;
                candidates.push(Candidate { display: name.clone(), replacement: name.clone() });
                proof {
                    assert(displayed(candidates@) =~= displayed(before).push(name@));
                    assert(replacing(candidates@) =~= replacing(before).push(name@));
                }
            }
            i += 1;
        }
        proof {
            assert(names.take(self.commands.len() as int) =~= names);
        }
        if candidates.len() == 0 {
            Completion::Paths
        } else {
            Completion::Commands { start: 0, candidates }
        }
    }
}

} // verus!
