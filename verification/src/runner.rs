//! The runner configuration and the rules that construct it.

use vstd::prelude::*;
use crate::error::FromArgsError;
use crate::lookup::PathStatus;

verus! {

/// The validated configuration of a run: the root directory to scan.
///
/// A runner is made by [`Runner::from_args`] alone, and only for a path whose
/// lookup reported a directory. It is never changed afterwards. That the
/// directory exists is a fact about the moment of the lookup: whoever scans the
/// root later has to cope with its having gone.
#[derive(Debug, PartialEq)]
pub struct Runner {
    /// The root directory, as it was given: relative to the current working
    /// directory unless absolute.
    root_dir: String,
}

impl View for Runner {
    type V = Seq<char>;

    /// A runner is seen as the text of its root directory.
    closed spec fn view(&self) -> Seq<char> {
        self.root_dir@
    }
}

/// What the rules make of an invocation: the text of the root directory, or
/// the reason for the rejection.
///
/// `args` holds the texts of the arguments, the program's own path first, and
/// `status` is what the lookup of the candidate reported. The rules apply in
/// this order, and the first that matches decides.
pub open spec fn outcome(args: Seq<Seq<char>>, status: PathStatus) -> Result<
    Seq<char>,
    FromArgsError,
> {
    if args.len() < 2 {
        Err(FromArgsError::InsufficientArguments)
    } else if args.len() > 2 {
        Err(FromArgsError::TooManyArguments)
    } else {
        match status {
            PathStatus::Unavailable => Err(FromArgsError::InvalidFilePath),
            PathStatus::NotDirectory => Err(FromArgsError::NotADirectory),
            PathStatus::Directory => Ok(args[1]),
        }
    }
}

/// A result of construction, with the runner seen as its root directory.
pub open spec fn result_view(r: Result<Runner, FromArgsError>) -> Result<Seq<char>, FromArgsError> {
    match r {
        Ok(runner) => Ok(runner@),
        Err(e) => Err(e),
    }
}

impl Runner {
    /// The path that a lookup is owed for, or the reason why none is.
    ///
    /// Element 0 of `args` is the program's own path and is never read. The
    /// candidate is element 1, provided that it is the only positional
    /// argument.
    pub fn candidate_path(args: &Vec<String>) -> (r: Result<&String, FromArgsError>)
        ensures
            args@.len() < 2 <==> r == Err::<&String, FromArgsError>(
                FromArgsError::InsufficientArguments,
            ),
            args@.len() > 2 <==> r == Err::<&String, FromArgsError>(
                FromArgsError::TooManyArguments,
            ),
            args@.len() == 2 <==> r is Ok,
            r is Ok ==> *r->Ok_0 == args@[1],
    {
        let n: usize = args.len();
        if n < 2 {
            return Err(FromArgsError::InsufficientArguments);
        }
        if n > 2 {
            return Err(FromArgsError::TooManyArguments);
        }
        Ok(&args[1])
    }

    /// Decides an invocation: the runner for `args`, or the reason why there
    /// is none.
    ///
    /// `status` is what one metadata query on the candidate path reported.
    /// Where the number of arguments already decides, it is not read. On
    /// success the runner holds element 1 as it stands, neither canonicalised
    /// nor made absolute.
    pub fn from_args(args: Vec<String>, status: PathStatus) -> (r: Result<Runner, FromArgsError>)
        ensures
            args@.len() < 2 <==> r == Err::<Runner, FromArgsError>(
                FromArgsError::InsufficientArguments,
            ),
            args@.len() > 2 <==> r == Err::<Runner, FromArgsError>(
                FromArgsError::TooManyArguments,
            ),
            args@.len() == 2 && status == PathStatus::Unavailable <==> r == Err::<
                Runner,
                FromArgsError,
            >(FromArgsError::InvalidFilePath),
            args@.len() == 2 && status == PathStatus::NotDirectory <==> r == Err::<
                Runner,
                FromArgsError,
            >(FromArgsError::NotADirectory),
            args@.len() == 2 && status == PathStatus::Directory <==> r is Ok,
            r is Ok ==> r->Ok_0@ == args@[1]@,
            result_view(r) == outcome(args.deep_view(), status),
    {
        match Runner::candidate_path(&args) {
            Err(e) => Err(e),
            Ok(path) => match status {
                PathStatus::Unavailable => Err(FromArgsError::InvalidFilePath),
                PathStatus::NotDirectory => Err(FromArgsError::NotADirectory),
                PathStatus::Directory => Ok(Runner { root_dir: path.clone() }),
            },
        }
    }

    /// The root directory, exactly as it was given.
    pub fn root_dir(&self) -> (r: &str)
        ensures
            r@ == self@,
    {
        self.root_dir.as_str()
    }
}

/// Construction is repeatable. Two argument lists that hold the same texts,
/// decided with the same lookup result, come to the same outcome: the same
/// rejection, or runners that hold the same root directory.
pub proof fn lemma_from_args_repeatable(
    first_args: Vec<String>,
    second_args: Vec<String>,
    status: PathStatus,
    first: Result<Runner, FromArgsError>,
    second: Result<Runner, FromArgsError>,
)
    requires
        first_args.deep_view() == second_args.deep_view(),
        result_view(first) == outcome(first_args.deep_view(), status),
        result_view(second) == outcome(second_args.deep_view(), status),
    ensures
        result_view(first) == result_view(second),
        first is Err ==> first == second,
        first is Ok ==> second is Ok && first->Ok_0@ == second->Ok_0@,
{
}

} // verus!
