//! Self-validation of domain values.

use vstd::prelude::*;

verus! {

/// The problems that a check reports when `failed` holds: `message`, or nothing.
pub open spec fn problem_if(failed: bool, message: Seq<char>) -> Seq<Seq<char>> {
    if failed {
        seq![message]
    } else {
        Seq::empty()
    }
}

pub open spec fn texts(v: Seq<String>) -> Seq<Seq<char>> {
    v.map_values(|s: String| s@)
}

/// Types that can validate themselves
pub trait Validator {
    /// The problems with this value, in the order validation reports them;
    /// none when the value is valid. A type that does not say what they are
    /// leaves them unknown.
    closed spec fn problems(&self) -> Seq<Seq<char>> {
        arbitrary()
    }

    /// Validates the instance and returns errors if invalid
    fn validate(&self) -> (r: Result<(), Vec<String>>)
        ensures
            match r {
                Ok(()) => self.problems().len() == 0,
                Err(v) => self.problems().len() > 0 && texts(v@) == self.problems(),
            },
    ;

    /// Returns true if the instance is valid
    fn is_valid(&self) -> (r: bool)
        ensures
            r == (self.problems().len() == 0),
    {
        match self.validate() {
            Ok(()) => true,
            Err(_) => false,
        }
    }
}

/// Adds `message` to the problems found so far when `failed` holds.
pub fn note_problem(problems: &mut Vec<String>, failed: bool, message: &str)
    ensures
        texts(final(problems)@) == texts(old(problems)@) + problem_if(failed, message@),
{
    let ghost before = texts(problems@);
    if failed {
        problems.push(String::from_str(message));
        proof {
            assert(texts(problems@) =~= before + seq![message@]);
        }
    } else {
        proof {
            assert(texts(problems@) =~= before + Seq::<Seq<char>>::empty());
        }
    }
}

/// `Ok` when no problem was found, else all of them.
pub fn problems_result(problems: Vec<String>) -> (r: Result<(), Vec<String>>)
    ensures
        match r {
            Ok(()) => problems@.len() == 0,
            Err(v) => problems@.len() > 0 && v@ == problems@,
        },
{
    if problems.len() == 0 {
        Ok(())
    } else {
        Err(problems)
    }
}

/// The problems of a playback state's volume and volume boost, in order:
/// each must be at most 100.
pub open spec fn volume_problems(volume: u8, volume_boost: u8) -> Seq<Seq<char>> {
    problem_if(volume > 100, "Volume must be between 0 and 100"@) + problem_if(
        volume_boost > 100,
        "Volume boost must be between 0 and 100"@,
    )
}

/// The problems that validating a playback state finds before its speed:
/// the volume's, then the volume boost's.
pub fn playback_volume_problems(volume: u8, volume_boost: u8) -> (r: Vec<String>)
    ensures
        texts(r@) == volume_problems(volume, volume_boost),
{
    let mut problems: Vec<String> = Vec::new();
    proof {
        assert(texts(problems@) =~= Seq::<Seq<char>>::empty());
    }
    note_problem(&mut problems, volume > 100, "Volume must be between 0 and 100");
    note_problem(&mut problems, volume_boost > 100, "Volume boost must be between 0 and 100");
    problems
}

} // verus!
