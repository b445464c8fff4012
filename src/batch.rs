//! The files of a batch run one after the other, and the runs they give.
use vstd::prelude::*;
use crate::exit::{CliError, Exit, EXIT_ERROR_PARSING};
use crate::input::{access_message, check_source, stdin_name, strs};
use crate::outcome::{HurlResult, HurlRun};

verus! {

/// What came of the current file of a batch.
pub enum SourceEvent {
    /// Its content could not be read.
    ReadFailed(CliError),
    /// The engine could not parse its content.
    ParseFailed,
    /// It ran: its content and its outcome.
    Completed(String, HurlResult),
}

/// What the batch asks for next.
pub enum Step {
    /// Run the next file.
    Next,
    /// Every file has run.
    Finished,
    /// End the process: no report is written for the batch.
    Stop(Exit),
}

/// A batch under way: its files, and a run for each file done so far.
pub struct Batch {
    pub filenames: Vec<String>,
    pub runs: Vec<HurlRun>,
}

impl Batch {
    /// The runs stand for the first files of the batch, in order.
    pub open spec fn well_formed(&self) -> bool {
        &&& self.runs@.len() <= self.filenames@.len()
        &&& forall|i: int| 0 <= i < self.runs@.len() ==> (#[trigger] self.runs@[i]).filename@ == self.filenames@[i]@
    }

    /// Every file has run.
    pub open spec fn done(&self) -> bool {
        self.runs@.len() == self.filenames@.len()
    }

    /// A batch of the given files, none run yet.
    pub fn new(filenames: Vec<String>) -> (b: Batch)
        ensures
            b.well_formed(),
            b.filenames@ == filenames@,
            b.runs@.len() == 0,
    {
        Batch { filenames, runs: Vec::new() }
    }

    /// The file to run next, if any is left.
    pub fn current(&self) -> (f: Option<&String>)
        requires
            self.well_formed(),
        ensures
            f is None <==> self.done(),
            f is Some ==> *f->0 == self.filenames@[self.runs@.len() as int],
    {
        if self.runs.len() < self.filenames.len() {
            Some(&self.filenames[self.runs.len()])
        } else {
            None
        }
    }

    /// Checks that the file to run next exists; the standard input always
    /// does. When it does not, the process ends with the access error.
    pub fn check_current(&self, exists: bool) -> (r: Result<(), Exit>)
        requires
            self.well_formed(),
            !self.done(),
        ensures
            r is Err <==> (self.filenames@[self.runs@.len() as int]@ != stdin_name() && !exists),
            r is Err ==> r->Err_0.code == EXIT_ERROR_PARSING
                && r->Err_0.message@ == access_message(self.filenames@[self.runs@.len() as int]@),
    {
        check_source(&self.filenames[self.runs.len()], exists)
    }

    /// Takes what came of the current file. A run is kept and the batch goes
    /// on; a file that could not be read or parsed ends the process with the
    /// parsing code, and the runs kept so far are given up.
    pub fn record(&mut self, event: SourceEvent) -> (s: Step)
        requires
            old(self).well_formed(),
            !old(self).done(),
        ensures
            final(self).well_formed(),
            final(self).filenames@ == old(self).filenames@,
            match event {
                SourceEvent::Completed(content, result) => {
                    &&& final(self).runs@.len() == old(self).runs@.len() + 1
                    &&& final(self).runs@.drop_last() == old(self).runs@
                    &&& final(self).runs@.last().content@ == content@
                    &&& final(self).runs@.last().hurl_result == result
                    &&& (s is Finished <==> final(self).done())
                    &&& (s is Next <==> !final(self).done())
                },
                SourceEvent::ReadFailed(e) => {
                    &&& final(self).runs@ == old(self).runs@
                    &&& s is Stop && s->Stop_0.code == EXIT_ERROR_PARSING
                    &&& s->Stop_0.message@ == e.message@
                },
                SourceEvent::ParseFailed => {
                    &&& final(self).runs@ == old(self).runs@
                    &&& s is Stop && s->Stop_0.code == EXIT_ERROR_PARSING
                    &&& s->Stop_0.message@.len() == 0
                },
            },
    {
        match event {
            SourceEvent::Completed(content, hurl_result) => {
                let filename = self.filenames[self.runs.len()].clone();
                self.runs.push(HurlRun { content, filename, hurl_result });
                if self.runs.len() == self.filenames.len() {
                    Step::Finished
                } else {
                    Step::Next
                }
            },
            SourceEvent::ReadFailed(e) => Step::Stop(Exit { code: EXIT_ERROR_PARSING, message: e.message }),
            SourceEvent::ParseFailed => Step::Stop(Exit { code: EXIT_ERROR_PARSING, message: String::new() }),
        }
    }

    /// The runs of a finished batch, one per file, in the order of the files.
    pub fn finish(self) -> (runs: Vec<HurlRun>)
        requires
            self.well_formed(),
            self.done(),
        ensures
            runs@ == self.runs@,
            strs(self.filenames@) == runs@.map_values(|r: HurlRun| r.filename@),
    {
        assert(strs(self.filenames@) =~= self.runs@.map_values(|r: HurlRun| r.filename@));
        self.runs
    }
}

} // verus!
