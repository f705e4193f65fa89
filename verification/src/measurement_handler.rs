//! The measurement of one process: whether a session is running, what it has recorded, and where
//! its rows go.
use crate::entry::{
    delta_millis, entry_map, measurement_entry, MeasurementEntry, MeasurementEntryValue,
    Measurements, Readings,
};
use crate::error::{pid_text, Refusal, ServiceError};
use crate::stop_channel::{stop_channel, stop_halves, StopLine, StopSender};
use crate::text::{decimal, decimal_text};
use crate::timestamp::Timestamp;
use tokio::sync::mpsc::error::TrySendError;
use tokio::sync::mpsc::{Receiver, Sender};
use vstd::prelude::*;

verus! {

/// What the system says of a process.
#[derive(Debug)]
pub struct ProcessInfo {
    /// The last component of the path of its executable, where there is one and it is Unicode.
    pub executable: Option<String>,
    /// Its name.
    pub name: String,
}

/// The measurement of one process.
pub struct MeasurementHandler {
    pid: u32,
    is_currently_measuring: bool,
    latest_results: Measurements,
    tx: Option<StopSender>,
    output_path: Option<String>,
    sep: String,
    process_name: String,
    summary: bool,
    current_fn_measured: Option<String>,
}

/// [`MeasurementHandler`] over mathematical values.
#[verifier::ext_equal]
pub struct HandlerState {
    pub pid: u32,
    pub measuring: bool,
    pub results: Seq<Map<Seq<char>, MeasurementEntryValue>>,
    pub tx: Option<StopLine>,
    pub output_path: Option<Seq<char>>,
    pub sep: Seq<char>,
    pub process_name: Seq<char>,
    pub summary: bool,
    pub function: Option<Seq<char>>,
}

/// Where rows are written.
#[derive(Debug, PartialEq, Eq)]
pub enum Output {
    /// A file, which is created anew.
    File(String),
    /// Standard output.
    Stdout,
}

/// A line, or the beginning of one, and where it goes.
#[derive(Debug, PartialEq, Eq)]
pub struct Line {
    pub output: Output,
    pub text: String,
}

/// What became of the signal that tells a session to stop.
#[derive(Debug, PartialEq, Eq)]
pub enum StopSignal {
    /// It is on its way.
    Sent,
    /// The session does not take it.
    Failed,
    /// There is nobody to send it to.
    NoSender,
}

/// The text of an optional string.
pub open spec fn text_of(text: Option<String>) -> Option<Seq<char>> {
    match text {
        Some(text) => Some(text@),
        None => None,
    }
}

/// What recorded entries hold, entry by entry.
pub open spec fn results_of(entries: Seq<MeasurementEntry>) -> Seq<
    Map<Seq<char>, MeasurementEntryValue>,
> {
    entries.map_values(|entry: MeasurementEntry| entry@)
}

/// The name a process goes by: that of its executable, else its own, and a stand-in for a process
/// that the system does not know.
pub open spec fn display_name(process: Option<ProcessInfo>) -> Seq<char> {
    match process {
        Some(info) => match info.executable {
            Some(executable) => executable@,
            None => info.name@,
        },
        None => "UNKNOWN_PROCESS_NAME"@,
    }
}

/// The complaint of a session that finds another one running.
pub open spec fn ongoing_message(pid: u32) -> Seq<char> {
    "A measurement session is already ongoing for pid: "@ + decimal(pid as nat) + "."@
}

/// The state of an optional channel.
pub open spec fn line_of(sender: Option<StopSender>) -> Option<StopLine> {
    match sender {
        Some(sender) => Some(sender@),
        None => None,
    }
}

impl HandlerState {
    /// A running session has a function and can be told to stop.
    pub open spec fn wf(self) -> bool {
        self.measuring ==> self.function is Some && self.tx is Some
    }

    /// The handler of a process before its first session.
    pub open spec fn fresh(
        pid: u32,
        output_path: Option<Seq<char>>,
        sep: Seq<char>,
        summary: bool,
        process_name: Seq<char>,
    ) -> HandlerState {
        HandlerState {
            pid,
            measuring: false,
            results: Seq::empty(),
            tx: None,
            output_path: match output_path {
                Some(path) => Some(path + "_"@ + process_name),
                None => None,
            },
            sep,
            process_name,
            summary,
            function: None,
        }
    }

    /// The handler once a session has begun: the results of the one before are gone.
    pub open spec fn begun(self, function: Seq<char>, channel: Sender<()>) -> HandlerState {
        HandlerState {
            measuring: true,
            results: Seq::empty(),
            tx: Some(StopLine::unused(channel)),
            function: Some(function),
            ..self
        }
    }

    /// Beginning a session that measures `function` leads to `next`; `receiver` is the end of the
    /// channel on which the session is told to stop.
    pub open spec fn begins(
        self,
        function: Seq<char>,
        receiver: Receiver<()>,
        next: HandlerState,
    ) -> bool {
        exists|channel: Sender<()>| #[trigger]
            stop_halves(channel, receiver) && next == self.begun(function, channel)
    }

    /// The handler once an entry has been recorded.
    pub open spec fn recorded(self, entry: Map<Seq<char>, MeasurementEntryValue>) -> HandlerState {
        HandlerState { results: self.results.push(entry), ..self }
    }

    /// The handler once its session has ended.
    pub open spec fn finished(self) -> HandlerState {
        HandlerState { measuring: false, ..self }
    }

    /// The handler once its session was sent one stop signal, which the channel took or did not
    /// take.
    pub open spec fn told(self, taken: bool) -> HandlerState {
        HandlerState {
            tx: match self.tx {
                Some(line) => Some(line.signalled(taken)),
                None => None,
            },
            ..self
        }
    }

    /// Telling the session to stop leads to `next`, and `signal` is what became of the signal:
    /// where there is a channel, one signal is sent over it and fares as reported; nothing else
    /// changes.
    pub open spec fn stops(self, signal: StopSignal, next: HandlerState) -> bool {
        match self.tx {
            Some(_) => signal != StopSignal::NoSender && next == self.told(
                signal == StopSignal::Sent,
            ),
            None => signal == StopSignal::NoSender && next == self,
        }
    }

    /// Why a stop for `function` is refused, or that it is not.
    pub open spec fn stop_refusal(self, function: Seq<char>) -> Option<Refusal> {
        if !self.measuring {
            Some(Refusal::NotMeasuring { pid: self.pid })
        } else {
            match self.function {
                None => Some(Refusal::NoFunction),
                Some(current) => if current != function {
                    Some(Refusal::OtherFunction { function: current })
                } else {
                    None
                },
            }
        }
    }

    /// The text that sums up a session of `function`.
    pub open spec fn energy_text(
        self,
        energy: Seq<char>,
        seconds: Seq<char>,
        function: Seq<char>,
    ) -> Seq<char> {
        "Energy consumption in joules: "@ + energy + " for "@ + seconds
            + " sec of execution for application "@ + self.process_name + " with function "@
            + function + "."@
    }

    /// The file that rows of `function` go to in a session started at `start_time`, if any.
    pub open spec fn output_file(self, function: Seq<char>, start_time: u128) -> Option<Seq<char>> {
        match self.output_path {
            Some(path) => Some(
                path + "_"@ + function + "_"@ + decimal(start_time as nat),
            ),
            None => None,
        }
    }
}

impl Output {
    /// The file that is written to, if it is not standard output.
    pub open spec fn file(self) -> Option<Seq<char>> {
        match self {
            Output::File(path) => Some(path@),
            Output::Stdout => None,
        }
    }
}

impl View for MeasurementHandler {
    type V = HandlerState;

    closed spec fn view(&self) -> HandlerState {
        HandlerState {
            pid: self.pid,
            measuring: self.is_currently_measuring,
            results: results_of(self.latest_results@),
            tx: line_of(self.tx),
            output_path: text_of(self.output_path),
            sep: self.sep@,
            process_name: self.process_name@,
            summary: self.summary,
            function: text_of(self.current_fn_measured),
        }
    }
}

/// The name a process goes by.
pub fn process_display_name(process: Option<ProcessInfo>) -> (name: String)
    ensures
        name@ == display_name(process),
{
    match process {
        Some(info) => match info.executable {
            Some(executable) => executable,
            None => info.name,
        },
        None => "UNKNOWN_PROCESS_NAME".to_string(),
    }
}

/// What became of a stop signal, by what sending it returned.
pub fn stop_signal(sent: Result<(), TrySendError<()>>) -> (signal: StopSignal)
    ensures
        signal == (if sent is Ok {
            StopSignal::Sent
        } else {
            StopSignal::Failed
        }),
{
    match sent {
        Ok(()) => StopSignal::Sent,
        Err(_) => StopSignal::Failed,
    }
}

impl MeasurementHandler {
    /// The handler of a process that is not being measured yet. Its rows go to files whose path
    /// begins with the given one and the name of the process, or to standard output.
    pub fn new(
        pid: u32,
        output_path: &Option<String>,
        sep: &String,
        summary: bool,
        process: Option<ProcessInfo>,
    ) -> (handler: Self)
        ensures
            handler@ == HandlerState::fresh(
                pid,
                text_of(*output_path),
                sep@,
                summary,
                display_name(process),
            ),
            handler@.wf(),
    {
        let process_name = process_display_name(process);
        let output_path = match output_path {
            Some(path) => {
                let mut path = path.clone();
                path.append("_");
                path.append(process_name.as_str());
                Some(path)
            },
            None => None,
        };
        let handler = MeasurementHandler {
            pid,
            is_currently_measuring: false,
            latest_results: Vec::new(),
            tx: None,
            output_path,
            sep: sep.clone(),
            process_name,
            summary,
            current_fn_measured: None,
        };
        proof {
            assert(results_of(handler.latest_results@) =~= Seq::empty());
        }
        handler
    }

    /// The process that is measured.
    pub fn pid(&self) -> (pid: u32)
        ensures
            pid == self@.pid,
    {
        self.pid
    }

    /// Whether a session is running.
    pub fn is_currently_measuring(&self) -> (measuring: bool)
        ensures
            measuring == self@.measuring,
    {
        self.is_currently_measuring
    }

    /// The function that is being measured, or was last.
    pub fn current_fn_measured(&self) -> (function: Option<&String>)
        ensures
            match function {
                Some(function) => self@.function == Some(function@),
                None => self@.function is None,
            },
    {
        match &self.current_fn_measured {
            Some(function) => Some(function),
            None => None,
        }
    }

    /// What separates the columns of a row.
    pub fn sep(&self) -> (sep: &String)
        ensures
            sep@ == self@.sep,
    {
        &self.sep
    }

    /// Whether the energy of a session is summed up.
    pub fn summary(&self) -> (summary: bool)
        ensures
            summary == self@.summary,
    {
        self.summary
    }

    /// Begins a session that measures `function_name` and returns the end of the channel on which
    /// it is told to stop. Where a session is running already, nothing changes.
    pub fn begin_measurement(&mut self, function_name: String) -> (begun: Result<
        Receiver<()>,
        String,
    >)
        ensures
            match begun {
                Ok(receiver) => !old(self)@.measuring && old(self)@.begins(
                    function_name@,
                    receiver,
                    final(self)@,
                ),
                Err(message) => old(self)@.measuring && message@ == ongoing_message(old(self)@.pid)
                    && final(self)@ == old(self)@,
            },
            old(self)@.wf() ==> final(self)@.wf(),
    {
        if self.is_currently_measuring {
            return Err(
                pid_text(
                    "A measurement session is already ongoing for pid: ",
                    self.pid,
                    ".",
                ),
            );
        }
        let (tx, receiver) = stop_channel();
        self.is_currently_measuring = true;
        self.latest_results = Vec::new();
        self.current_fn_measured = Some(function_name);
        self.tx = Some(tx);
        proof {
            assert(results_of(self.latest_results@) =~= Seq::empty());
        }
        Ok(receiver)
    }

    /// Records the readings that were sampled at `previous_time`, as of `now`.
    pub fn process_last_measurement(
        &mut self,
        previous_time: Timestamp,
        now: Timestamp,
        results: &Readings,
    )
        requires
            previous_time.since_epoch() <= now.since_epoch(),
        ensures
            final(self)@ == old(self)@.recorded(
                entry_map(previous_time, delta_millis(previous_time, now), results@),
            ),
            old(self)@.wf() ==> final(self)@.wf(),
    {
        let entry = measurement_entry(previous_time, now, results);
        self.latest_results.push(entry);
        proof {
            assert(results_of(self.latest_results@) =~= results_of(
                old(self).latest_results@,
            ).push(entry@));
        }
    }

    /// Ends the session. What it recorded stays until the next one begins. A session does this when
    /// it concludes.
    pub(crate) fn finish_measurement(&mut self)
        ensures
            final(self)@ == old(self)@.finished(),
            final(self)@.wf(),
    {
        self.is_currently_measuring = false;
    }

    /// Whether a session that measures `function_name` can be told to stop.
    pub fn check_stop(&self, function_name: &String) -> (checked: Result<(), ServiceError>)
        ensures
            match self@.stop_refusal(function_name@) {
                Some(refusal) => checked matches Err(error) && error@ == refusal,
                None => checked is Ok,
            },
    {
        if !self.is_currently_measuring {
            return Err(ServiceError::NotMeasuring { pid: self.pid });
        }
        match &self.current_fn_measured {
            Some(current) => {
                if *current == *function_name {
                    Ok(())
                } else {
                    Err(ServiceError::OtherFunction { function: current.clone() })
                }
            },
            None => Err(ServiceError::NoFunction),
        }
    }

    /// Tells the session that measures `function_name` to stop. The session ends in its own time;
    /// [`MeasurementHandler::results_once_stopped`] then has its results. A refused stop sends
    /// nothing, and one that is taken sends one signal.
    pub fn stop_measurement(&mut self, function_name: &String) -> (stopped: Result<
        StopSignal,
        ServiceError,
    >)
        ensures
            match old(self)@.stop_refusal(function_name@) {
                Some(refusal) => stopped matches Err(error) && error@ == refusal && final(self)@
                    == old(self)@,
                None => stopped matches Ok(signal) && old(self)@.stops(signal, final(self)@),
            },
            old(self)@.wf() ==> final(self)@.wf(),
    {
        match self.check_stop(function_name) {
            Err(error) => Err(error),
            Ok(()) => match &mut self.tx {
                Some(tx) => Ok(stop_signal(tx.send())),
                None => Ok(StopSignal::NoSender),
            },
        }
    }

    /// The entries of the latest session, oldest first, unless it is still running.
    pub fn results_once_stopped(&self) -> (results: Option<Measurements>)
        ensures
            match results {
                Some(entries) => !self@.measuring && results_of(entries@) == self@.results,
                None => self@.measuring,
            },
    {
        if self.is_currently_measuring {
            return None;
        }
        let mut entries: Measurements = Vec::new();
        let mut index: usize = 0;
        while index < self.latest_results.len()
            invariant
                index <= self.latest_results@.len(),
                entries@.len() == index,
                forall|i: int|
                    0 <= i < index ==> (#[trigger] entries@[i])@ == self.latest_results@[i]@,
            decreases self.latest_results@.len() - index,
        {
            let entry = self.latest_results[index].clone();
            proof {
                assert(entry@ =~= self.latest_results@[index as int]@);
            }
            entries.push(entry);
            index = index + 1;
        }
        proof {
            assert(results_of(entries@) =~= results_of(self.latest_results@));
        }
        Some(entries)
    }

    /// Where the rows of a session go that measures `function_name` since `start_time`, counted in
    /// milliseconds from the Unix epoch.
    pub fn get_output(&self, function_name: &String, start_time: u128) -> (output: Output)
        ensures
            output.file() == self@.output_file(function_name@, start_time),
    {
        match &self.output_path {
            Some(path) => {
                let mut file = path.clone();
                file.append("_");
                file.append(function_name.as_str());
                file.append("_");
                file.append(decimal_text(start_time).as_str());
                Output::File(file)
            },
            None => Output::Stdout,
        }
    }

    /// The first two headings of the header line.
    pub fn print_header(&self, function_name: &String, start_time: u128) -> (line: Line)
        ensures
            line.output.file() == self@.output_file(function_name@, start_time),
            line.text@ == "Application"@ + self@.sep + "Function"@ + self@.sep,
    {
        let mut text = "Application".to_string();
        text.append(self.sep.as_str());
        text.append("Function");
        text.append(self.sep.as_str());
        Line { output: self.get_output(function_name, start_time), text }
    }

    /// The first two columns of a row.
    pub fn print_results(&self, function_name: &String, start_time: u128) -> (line: Line)
        ensures
            line.output.file() == self@.output_file(function_name@, start_time),
            line.text@ == self@.process_name + self@.sep + function_name@ + self@.sep,
    {
        let mut text = self.process_name.clone();
        text.append(self.sep.as_str());
        text.append(function_name.as_str());
        text.append(self.sep.as_str());
        Line { output: self.get_output(function_name, start_time), text }
    }

    /// The closing line of a session of `function_name` that consumed `energy` joules in `seconds`
    /// seconds, where sums are kept and there is something to sum up, which is what `consumed`
    /// says.
    pub(crate) fn energy_summary(
        &self,
        consumed: bool,
        energy: &str,
        seconds: &str,
        function_name: &String,
    ) -> (line: Option<Line>)
        ensures
            match line {
                Some(line) => consumed && self@.summary && line.output == Output::Stdout
                    && line.text@ == self@.energy_text(energy@, seconds@, function_name@),
                None => !(consumed && self@.summary),
            },
    {
        if consumed && self.summary {
            let mut text = "Energy consumption in joules: ".to_string();
            text.append(energy);
            text.append(" for ");
            text.append(seconds);
            text.append(" sec of execution for application ");
            text.append(self.process_name.as_str());
            text.append(" with function ");
            text.append(function_name.as_str());
            text.append(".");
            Some(Line { output: Output::Stdout, text })
        } else {
            None
        }
    }
}

} // verus!
