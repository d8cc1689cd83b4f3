use vstd::prelude::*;
use crate::entry::{Entry, EntryModel, entries_view, append_entries};
use crate::kv::{KV, kv_entries};
use crate::snapshot::{StateSnapshot, serialize_state, state_entries};
use crate::state_data::StateData;

verus! {

/// What happens to a record pushed while the delivery queue is full.
#[derive(Clone, Copy, Debug, PartialEq, Eq, Structural)]
pub enum Overflow {
    /// The caller waits until the queue has room; no record is lost.
    Block,
    /// The record is discarded at once, without an error.
    Drop,
}

/// Where the records go.
#[derive(Clone, Debug, PartialEq, Eq)]
pub enum LogTarget {
    /// Human-readable lines on the terminal, entries in emission order.
    Terminal,
    /// One JSON object per line in the file at `path`, which is created if
    /// absent and cleared first when `truncate` is set.
    File { path: String, truncate: bool },
}

/// The mathematical value of a [`LogTarget`].
pub enum TargetModel {
    Terminal,
    File { path: Seq<char>, truncate: bool },
}

impl View for LogTarget {
    type V = TargetModel;

    open spec fn view(&self) -> TargetModel {
        match self {
            LogTarget::Terminal => TargetModel::Terminal,
            LogTarget::File { path, truncate } => TargetModel::File {
                path: path@,
                truncate: *truncate,
            },
        }
    }
}

/// A record ready for delivery: a free-text message and its entries.
#[derive(Clone, Debug, PartialEq, Eq)]
pub struct LogRecord {
    pub msg: String,
    pub entries: Vec<Entry>,
}

/// The mathematical value of a [`LogRecord`].
pub struct RecordModel {
    pub msg: Seq<char>,
    pub entries: Seq<EntryModel>,
}

impl View for LogRecord {
    type V = RecordModel;

    open spec fn view(&self) -> RecordModel {
        RecordModel { msg: self.msg@, entries: entries_view(self.entries@) }
    }
}

/// A logger of optimization progress: the ordered selection of state data
/// to log, the overflow strategy of its delivery queue, and its target.
#[derive(Clone, Debug)]
pub struct SlogLogger {
    log_data: Vec<StateData>,
    overflow: Overflow,
    target: LogTarget,
}

/// The mathematical value of a [`SlogLogger`].
pub struct LoggerModel {
    pub log_data: Seq<StateData>,
    pub overflow: Overflow,
    pub target: TargetModel,
}

impl View for SlogLogger {
    type V = LoggerModel;

    closed spec fn view(&self) -> LoggerModel {
        LoggerModel { log_data: self.log_data@, overflow: self.overflow, target: self.target@ }
    }
}

/// The selection a new logger starts with.
pub open spec fn default_log_data() -> Seq<StateData> {
    seq![StateData::FunctionCounts, StateData::BestCost, StateData::Cost, StateData::Iter]
}

fn default_data() -> (r: Vec<StateData>)
    ensures
        r@ == default_log_data(),
{
    let r = vec![StateData::FunctionCounts, StateData::BestCost, StateData::Cost, StateData::Iter];
    assert(r@ =~= default_log_data());
    r
}

impl SlogLogger {
    fn with_target(target: LogTarget, overflow: Overflow) -> (r: SlogLogger)
        ensures
            r@ == (LoggerModel { log_data: default_log_data(), overflow, target: target@ }),
    {
        SlogLogger { log_data: default_data(), overflow, target }
    }

    /// A logger to the terminal that blocks the caller while the queue is full.
    pub fn term() -> (r: SlogLogger)
        ensures
            r@ == (LoggerModel {
                log_data: default_log_data(),
                overflow: Overflow::Block,
                target: TargetModel::Terminal,
            }),
    {
        SlogLogger::with_target(LogTarget::Terminal, Overflow::Block)
    }

    /// A logger to the terminal that drops records while the queue is full.
    pub fn term_noblock() -> (r: SlogLogger)
        ensures
            r@ == (LoggerModel {
                log_data: default_log_data(),
                overflow: Overflow::Drop,
                target: TargetModel::Terminal,
            }),
    {
        SlogLogger::with_target(LogTarget::Terminal, Overflow::Drop)
    }

    /// A logger of JSON lines to the file at `path` that blocks the caller
    /// while the queue is full; the file is cleared first iff `truncate`.
    pub fn file(path: &str, truncate: bool) -> (r: SlogLogger)
        ensures
            r@ == (LoggerModel {
                log_data: default_log_data(),
                overflow: Overflow::Block,
                target: TargetModel::File { path: path@, truncate },
            }),
    {
        SlogLogger::with_target(
            LogTarget::File { path: String::from_str(path), truncate },
            Overflow::Block,
        )
    }

    /// A logger of JSON lines to the file at `path` that drops records while
    /// the queue is full; the file is cleared first iff `truncate`.
    pub fn file_noblock(path: &str, truncate: bool) -> (r: SlogLogger)
        ensures
            r@ == (LoggerModel {
                log_data: default_log_data(),
                overflow: Overflow::Drop,
                target: TargetModel::File { path: path@, truncate },
            }),
    {
        SlogLogger::with_target(
            LogTarget::File { path: String::from_str(path), truncate },
            Overflow::Drop,
        )
    }

    /// Replaces the selection of data to log. It is logged in the given
    /// order, duplicates included.
    pub fn data(&mut self, log_data: Vec<StateData>) -> (r: &mut SlogLogger)
        ensures
            r@ == (LoggerModel { log_data: log_data@, ..old(self)@ }),
            *final(r) == *final(self),
    {
        self.log_data = log_data;
        self
    }

    /// The selection of data to log, in order.
    pub fn log_data(&self) -> (r: &Vec<StateData>)
        ensures
            r@ == self@.log_data,
    {
        &self.log_data
    }

    /// The overflow strategy of the delivery queue.
    pub fn overflow(&self) -> (r: Overflow)
        ensures
            r == self@.overflow,
    {
        self.overflow
    }

    /// Where the records go.
    pub fn target(&self) -> (r: &LogTarget)
        ensures
            r@ == self@.target,
    {
        &self.target
    }

    /// The record logged after initialization: the message `msg` with the
    /// entries of `kv`, and no state data.
    pub fn observe_init(&self, msg: &str, kv: &KV) -> (r: LogRecord)
        ensures
            r@ == (RecordModel { msg: msg@, entries: kv_entries(kv@) }),
    {
        LogRecord { msg: String::from_str(msg), entries: kv.entries() }
    }

    /// The record logged after an iteration: the entries of the selected
    /// state data, in selection order, followed by those of `kv`, with an
    /// empty message.
    pub fn observe_iter(&self, state: &StateSnapshot, kv: &KV) -> (r: LogRecord)
        ensures
            r@ == (RecordModel {
                msg: Seq::empty(),
                entries: state_entries(self@.log_data, *state) + kv_entries(kv@),
            }),
    {
        let mut entries = serialize_state(&self.log_data, state);
        append_entries(&mut entries, kv.entries());
        let msg = String::new();
        LogRecord { msg, entries }
    }
}

} // verus!
