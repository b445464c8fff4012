//! Resolution of the files of a batch and the checks made before running them.
use vstd::prelude::*;
use crate::exit::{Exit, EXIT_ERROR_COMMANDLINE, EXIT_ERROR_PARSING};

verus! {

/// The character strings held by a sequence of `String`s.
pub open spec fn strs(v: Seq<String>) -> Seq<Seq<char>> {
    v.map_values(|s: String| s@)
}

/// The name that stands for the standard input.
pub open spec fn stdin_name() -> Seq<char> {
    "-"@
}

/// The files named on the command line followed by those of the glob options.
pub open spec fn given_files(files: Option<Vec<String>>, glob_files: Seq<String>) -> Seq<Seq<char>> {
    (match files {
        Some(v) => strs(v@),
        None => Seq::empty(),
    }) + strs(glob_files)
}

/// Appends a copy of each string of `from` to `to`.
fn push_all(to: &mut Vec<String>, from: &Vec<String>)
    ensures
        strs(final(to)@) == strs(old(to)@) + strs(from@),
{
    let ghost start = strs(to@);
    let mut i: usize = 0;
    while i < from.len()
        invariant
            0 <= i <= from@.len(),
            strs(to@) == start + strs(from@.take(i as int)),
        decreases from@.len() - i,
    {
        let c = from[i].clone();
        let ghost before = to@;
        to.push(c);
        assert(strs(to@) =~= strs(before).push(from@[i as int]@));
        assert(strs(from@.take(i + 1)) =~= strs(from@.take(i as int)).push(from@[i as int]@));
        assert(strs(to@) =~= start + strs(from@.take(i + 1)));
        i += 1;
    }
    assert(from@.take(i as int) == from@);
}

/// Returns the files of a batch: those of the positional arguments then those
/// of the glob options, in order and with repeats kept. With no file given,
/// the standard input is read when it is not a terminal; when it is one, the
/// usage is to be shown and the process ended as for a command-line error,
/// with no message of its own.
pub fn get_input_files(files: &Option<Vec<String>>, glob_files: &Vec<String>, stdin_is_terminal: bool) -> (r: Result<Vec<String>, Exit>)
    ensures
        given_files(*files, glob_files@).len() > 0 ==> r is Ok && strs(r->Ok_0@) == given_files(*files, glob_files@),
        given_files(*files, glob_files@).len() == 0 && stdin_is_terminal ==> r is Err
            && r->Err_0.code == EXIT_ERROR_COMMANDLINE && r->Err_0.message@.len() == 0,
        given_files(*files, glob_files@).len() == 0 && !stdin_is_terminal ==> r is Ok && strs(r->Ok_0@) == seq![stdin_name()],
{
    let mut filenames: Vec<String> = Vec::new();
    match files {
        Some(values) => push_all(&mut filenames, values),
        None => {},
    }
    push_all(&mut filenames, glob_files);
    assert(strs(filenames@) =~= given_files(*files, glob_files@));
    if filenames.len() == 0 {
        if stdin_is_terminal {
            return Err(Exit { code: EXIT_ERROR_COMMANDLINE, message: String::new() });
        }
        filenames.push(String::from_str("-"));
        assert(strs(filenames@) =~= seq![stdin_name()]);
    }
    Ok(filenames)
}

/// The message given when a file cannot be found.
pub open spec fn access_message(filename: Seq<char>) -> Seq<char> {
    "hurl: cannot access '"@ + filename + "': No such file or directory"@
}

/// Checks that a file of the batch exists before it is read; the standard
/// input always does.
pub fn check_source(filename: &String, exists: bool) -> (r: Result<(), Exit>)
    ensures
        r is Err <==> (filename@ != stdin_name() && !exists),
        r is Err ==> r->Err_0.code == EXIT_ERROR_PARSING && r->Err_0.message@ == access_message(filename@),
{
    let stdin = String::from_str("-");
    if *filename != stdin && !exists {
        let mut message = String::from_str("hurl: cannot access '");
        message.append(filename.as_str());
        message.append("': No such file or directory");
        return Err(Exit { code: EXIT_ERROR_PARSING, message });
    }
    Ok(())
}

/// Checks, before any run, that cookies are saved only for a single file.
pub fn check_cookie_output(cookie_output: bool, n_files: usize) -> (r: Result<(), Exit>)
    ensures
        r is Err <==> (cookie_output && n_files > 1),
        r is Err ==> r->Err_0.code == EXIT_ERROR_COMMANDLINE
            && r->Err_0.message@ == "Only save cookies for a unique session"@,
{
    if cookie_output && n_files > 1 {
        return Err(Exit { code: EXIT_ERROR_COMMANDLINE, message: String::from_str("Only save cookies for a unique session") });
    }
    Ok(())
}

/// Whether the process runs under continuous integration, from the presence
/// of the `CI` and `TF_BUILD` variables.
pub fn is_ci(ci_set: bool, tf_build_set: bool) -> (b: bool)
    ensures
        b == (ci_set || tf_build_set),
{
    ci_set || tf_build_set
}

/// Whether a progress bar is shown: in test mode, not verbose, outside
/// continuous integration, with the error stream on a terminal.
pub fn progress_bar(test: bool, verbose: bool, ci: bool, stderr_is_terminal: bool) -> (b: bool)
    ensures
        b == (test && !verbose && !ci && stderr_is_terminal),
{
    test && !verbose && !ci && stderr_is_terminal
}

} // verus!
