//! The vision process: the command line that it is launched with, and the
//! decisions of its supervisor.
//!
//! The process itself is spawned and killed by the caller. This module says
//! when to do either and what each outcome means.

use vstd::prelude::*;
use vstd::string::StringExecFns;
use crate::decimal::{decimal_digits, decimal_string};

verus! {

/// Why a request to the vision process failed.
#[derive(Clone, Copy, Debug, PartialEq, Eq, Structural)]
pub enum VisionError {
    /// A start was asked for while a process is held.
    NotStopped,
    /// A stop was asked for while no process is held.
    NotStarted,
    /// The process could not be spawned.
    SpawnFailed,
    /// The process could not be killed.
    KillFailed,
}

impl VisionError {
    /// The message that describes the error.
    pub open spec fn message_view(self) -> Seq<char> {
        match self {
            VisionError::NotStopped => "vision is not stopped"@,
            VisionError::NotStarted => "vision is not started"@,
            VisionError::SpawnFailed => "could not spawn vision"@,
            VisionError::KillFailed =>
                "could not stop vision, or vision was already stopped due to an erouneous exit"@,
        }
    }

    /// The message that describes the error.
    pub fn message(&self) -> (text: &'static str)
        ensures
            text@ == self.message_view(),
    {
        match self {
            VisionError::NotStopped => "vision is not stopped",
            VisionError::NotStarted => "vision is not started",
            VisionError::SpawnFailed => "could not spawn vision",
            VisionError::KillFailed =>
                "could not stop vision, or vision was already stopped due to an erouneous exit",
        }
    }
}

/// The texts of a sequence of strings.
pub open spec fn texts(strings: Seq<String>) -> Seq<Seq<char>> {
    Seq::new(strings.len(), |i: int| strings[i]@)
}

/// The texts of a sequence of string slices.
pub open spec fn slice_texts(strings: Seq<&str>) -> Seq<Seq<char>> {
    Seq::new(strings.len(), |i: int| strings[i]@)
}

/// The arguments that the vision process is launched with: the broker's
/// host behind `-m`, the decimal numeral of the broker's port behind `-p`,
/// then the further arguments in the order given.
pub open spec fn arguments_of(mqtt_host: Seq<char>, mqtt_port: u16, further: Seq<Seq<char>>) -> Seq<
    Seq<char>,
> {
    seq!["-m"@, mqtt_host, "-p"@, decimal_digits(mqtt_port as nat)] + further
}

/// What a supervisor stands for: the command line, and whether a process is
/// held.
pub struct VisionView {
    /// The path of the executable.
    pub program: Seq<char>,
    /// The arguments handed to the executable.
    pub arguments: Seq<Seq<char>>,
    /// Whether a process was spawned. Once one was, it is held for good: a
    /// stop kills it but does not let go of it.
    pub started: bool,
}

/// The supervisor of one vision process.
#[derive(Debug)]
pub struct Vision {
    program: String,
    arguments: Vec<String>,
    started: bool,
}

impl View for Vision {
    type V = VisionView;

    closed spec fn view(&self) -> VisionView {
        VisionView {
            program: self.program@,
            arguments: texts(self.arguments@),
            started: self.started,
        }
    }
}

impl Vision {
    /// The supervisor of a vision process that has not been started: the
    /// executable at `path`, told where the broker is, with `vision_args`
    /// behind.
    pub fn new(path: &str, mqtt_host: &str, mqtt_port: u16, vision_args: &[&str]) -> (vision:
        Vision)
        ensures
            vision@.program == path@,
            vision@.arguments == arguments_of(mqtt_host@, mqtt_port, slice_texts(vision_args@)),
            !vision@.started,
    {
        let mut arguments: Vec<String> = Vec::new();
        arguments.push(String::from_str("-m"));
        arguments.push(String::from_str(mqtt_host));
        arguments.push(String::from_str("-p"));
        arguments.push(decimal_string(mqtt_port));
        let ghost fixed = seq!["-m"@, mqtt_host@, "-p"@, decimal_digits(mqtt_port as nat)];
        assert(texts(arguments@) =~= fixed);
        let mut i: usize = 0;
        while i < vision_args.len()
            invariant
                i <= vision_args.len(),
                texts(arguments@) == fixed + slice_texts(vision_args@).take(i as int),
            decreases vision_args.len() - i,
        {
            let ghost held = arguments@;
            arguments.push(String::from_str(vision_args[i]));
            proof {
                let further = slice_texts(vision_args@);
                assert(texts(arguments@) =~= texts(held).push(further[i as int]));
                assert(further.take(i + 1) =~= further.take(i as int).push(further[i as int]));
                assert(texts(arguments@) =~= fixed + further.take(i + 1));
            }
            i += 1;
        }
        assert(slice_texts(vision_args@).take(i as int) =~= slice_texts(vision_args@));
        Vision { program: String::from_str(path), arguments, started: false }
    }

    /// The path of the executable.
    pub fn program(&self) -> (program: &str)
        ensures
            program@ == self@.program,
    {
        self.program.as_str()
    }

    /// The arguments handed to the executable.
    pub fn arguments(&self) -> (arguments: &Vec<String>)
        ensures
            texts(arguments@) == self@.arguments,
    {
        &self.arguments
    }

    /// Whether a process is held.
    pub fn is_started(&self) -> (started: bool)
        ensures
            started == self@.started,
    {
        self.started
    }

    /// Decides on a request to start: `Ok` where a process is to be spawned
    /// now, the outcome to be reported with [`Vision::spawned`]; an error,
    /// and nothing to do, where one is held already.
    pub fn start(&self) -> (result: Result<(), VisionError>)
        ensures
            result == start_decision(self@),
    {
        if self.started {
            Err(VisionError::NotStopped)
        } else {
            Ok(())
        }
    }

    /// Records the outcome of a spawn. A process that was spawned is held
    /// from now on; one that was not leaves the supervisor as it was. A
    /// supervisor that holds a process already does not take another.
    pub fn spawned(&mut self, succeeded: bool) -> (result: Result<(), VisionError>)
        ensures
            result == spawned_result(old(self)@, succeeded),
            final(self)@ == after_spawned(old(self)@, succeeded),
    {
        if self.started {
            Err(VisionError::NotStopped)
        } else if succeeded {
            self.started = true;
            Ok(())
        } else {
            Err(VisionError::SpawnFailed)
        }
    }

    /// Decides on a request to stop: `Ok` where the process held is to be
    /// killed now, the outcome to be reported with [`Vision::killed`]; an
    /// error, and nothing to do, where none is held.
    pub fn stop(&self) -> (result: Result<(), VisionError>)
        ensures
            result == stop_decision(self@),
    {
        if self.started {
            Ok(())
        } else {
            Err(VisionError::NotStarted)
        }
    }

    /// The result of a stop, given whether the process held could be killed.
    /// Either way the supervisor goes on holding it.
    pub fn killed(&self, succeeded: bool) -> (result: Result<(), VisionError>)
        ensures
            result == killed_result(self@, succeeded),
    {
        if !self.started {
            Err(VisionError::NotStarted)
        } else if succeeded {
            Ok(())
        } else {
            Err(VisionError::KillFailed)
        }
    }
}

/// The decision on a request to start: it goes ahead exactly where no
/// process is held.
pub open spec fn start_decision(vision: VisionView) -> Result<(), VisionError> {
    if vision.started {
        Err(VisionError::NotStopped)
    } else {
        Ok(())
    }
}

/// The decision on a request to stop: it goes ahead exactly where a process
/// is held.
pub open spec fn stop_decision(vision: VisionView) -> Result<(), VisionError> {
    if vision.started {
        Ok(())
    } else {
        Err(VisionError::NotStarted)
    }
}

/// The result of a start whose spawn ended as `succeeded` says.
pub open spec fn spawned_result(vision: VisionView, succeeded: bool) -> Result<(), VisionError> {
    if vision.started {
        Err(VisionError::NotStopped)
    } else if succeeded {
        Ok(())
    } else {
        Err(VisionError::SpawnFailed)
    }
}

/// The supervisor after a spawn that ended as `succeeded` says: it holds a
/// process if it held one before or one was spawned now, and its command
/// line is what it was.
pub open spec fn after_spawned(vision: VisionView, succeeded: bool) -> VisionView {
    VisionView {
        program: vision.program,
        arguments: vision.arguments,
        started: vision.started || succeeded,
    }
}

/// The result of a stop whose kill ended as `succeeded` says.
pub open spec fn killed_result(vision: VisionView, succeeded: bool) -> Result<(), VisionError> {
    if !vision.started {
        Err(VisionError::NotStarted)
    } else if succeeded {
        Ok(())
    } else {
        Err(VisionError::KillFailed)
    }
}

/// Once a process is held it is held for good: whatever spawn is reported
/// next, the supervisor stays as it is, refuses every start and lets every
/// stop go ahead.
pub proof fn lemma_started_for_good(vision: VisionView, succeeded: bool)
    requires
        vision.started,
    ensures
        after_spawned(vision, succeeded) == vision,
        spawned_result(vision, succeeded) == Err::<(), VisionError>(VisionError::NotStopped),
        start_decision(vision) == Err::<(), VisionError>(VisionError::NotStopped),
        stop_decision(vision) == Ok::<(), VisionError>(()),
{
}

/// A start and a stop are never both refused, and never both go ahead.
pub proof fn lemma_start_or_stop(vision: VisionView)
    ensures
        start_decision(vision) is Ok <==> stop_decision(vision) is Err,
{
}

} // verus!
