//! The command/event protocol: inbound commands acting on one tab and
//! outbound lifecycle events, with their mathematical models.

use vstd::prelude::*;

verus! {

/// Model of an outbound event: all strings as character sequences.
pub enum EventModel {
    Ready,
    TitleChange { tab_id: Seq<char>, title: Seq<char> },
    UrlChange { tab_id: Seq<char>, url: Seq<char> },
    LoadStart { tab_id: Seq<char>, url: Seq<char> },
    LoadComplete { tab_id: Seq<char>, url: Seq<char> },
    ProcessCrash { tab_id: Seq<char>, process_id: Seq<char> },
}

/// An outbound event, every variant carrying the id of the tab it is
/// about (`Ready` alone is connection-level and carries none).
#[derive(Debug, Clone, PartialEq)]
pub enum Event {
    Ready,
    TitleChange { tab_id: String, title: String },
    UrlChange { tab_id: String, url: String },
    LoadStart { tab_id: String, url: String },
    LoadComplete { tab_id: String, url: String },
    ProcessCrash { tab_id: String, process_id: String },
}

impl View for Event {
    type V = EventModel;

    open spec fn view(&self) -> EventModel {
        match self {
            Event::Ready => EventModel::Ready,
            Event::TitleChange { tab_id, title } => EventModel::TitleChange {
                tab_id: tab_id@,
                title: title@,
            },
            Event::UrlChange { tab_id, url } => EventModel::UrlChange {
                tab_id: tab_id@,
                url: url@,
            },
            Event::LoadStart { tab_id, url } => EventModel::LoadStart {
                tab_id: tab_id@,
                url: url@,
            },
            Event::LoadComplete { tab_id, url } => EventModel::LoadComplete {
                tab_id: tab_id@,
                url: url@,
            },
            Event::ProcessCrash { tab_id, process_id } => EventModel::ProcessCrash {
                tab_id: tab_id@,
                process_id: process_id@,
            },
        }
    }
}

impl DeepView for Event {
    type V = EventModel;

    open spec fn deep_view(&self) -> EventModel {
        self.view()
    }
}

/// Model of an inbound command.
pub enum CommandModel {
    Initialize { tab_id: Seq<char> },
    Navigate { tab_id: Seq<char>, url: Seq<char> },
    Back { tab_id: Seq<char> },
    Forward { tab_id: Seq<char> },
    Refresh { tab_id: Seq<char> },
    Shutdown { tab_id: Seq<char> },
}

impl CommandModel {
    /// The id of the tab a command acts on.
    pub open spec fn tab_id(self) -> Seq<char> {
        match self {
            CommandModel::Initialize { tab_id } => tab_id,
            CommandModel::Navigate { tab_id, .. } => tab_id,
            CommandModel::Back { tab_id } => tab_id,
            CommandModel::Forward { tab_id } => tab_id,
            CommandModel::Refresh { tab_id } => tab_id,
            CommandModel::Shutdown { tab_id } => tab_id,
        }
    }
}

/// An inbound command, each variant naming the tab it acts on.
#[derive(Debug, Clone)]
pub enum Command {
    Initialize { tab_id: String },
    Navigate { tab_id: String, url: String },
    Back { tab_id: String },
    Forward { tab_id: String },
    Refresh { tab_id: String },
    Shutdown { tab_id: String },
}

impl View for Command {
    type V = CommandModel;

    open spec fn view(&self) -> CommandModel {
        match self {
            Command::Initialize { tab_id } => CommandModel::Initialize { tab_id: tab_id@ },
            Command::Navigate { tab_id, url } => CommandModel::Navigate {
                tab_id: tab_id@,
                url: url@,
            },
            Command::Back { tab_id } => CommandModel::Back { tab_id: tab_id@ },
            Command::Forward { tab_id } => CommandModel::Forward { tab_id: tab_id@ },
            Command::Refresh { tab_id } => CommandModel::Refresh { tab_id: tab_id@ },
            Command::Shutdown { tab_id } => CommandModel::Shutdown { tab_id: tab_id@ },
        }
    }
}

impl DeepView for Command {
    type V = CommandModel;

    open spec fn deep_view(&self) -> CommandModel {
        self.view()
    }
}

} // verus!
