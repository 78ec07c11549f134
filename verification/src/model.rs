//! The values that one invocation handles: the event it receives, the record
//! it asks the table to hold, and the response it returns.

use vstd::prelude::*;

verus! {

/// The payload of an invocation: the name of the user to register.
#[derive(Debug, Clone, PartialEq, Eq)]
pub struct Request {
    pub user_name: String,
}

/// What the runtime tells about an invocation besides its payload.
#[derive(Debug, Clone, PartialEq, Eq)]
pub struct Context {
    /// The identifier that the caller of the invocation knows it by.
    pub request_id: String,
}

/// One invocation as it is delivered: the payload and its context.
#[derive(Debug, Clone, PartialEq, Eq)]
pub struct Event {
    pub payload: Request,
    pub context: Context,
}

/// The answer to one invocation.
#[derive(Debug, Clone, PartialEq, Eq)]
pub struct Response {
    /// The request identifier of the invocation, taken over unchanged.
    pub req_id: String,
    /// The outcome in words.
    pub msg: String,
}

/// One row of the table: a user under a primary key of its own.
#[derive(Debug, Clone, PartialEq, Eq)]
pub struct Record {
    /// The primary key.
    pub user_id: String,
    pub user_name: String,
}

/// An [`Event`] as mathematical text.
pub struct EventView {
    pub user_name: Seq<char>,
    pub request_id: Seq<char>,
}

/// A [`Response`] as mathematical text.
pub struct ResponseView {
    pub req_id: Seq<char>,
    pub msg: Seq<char>,
}

/// A [`Record`] as mathematical text.
pub struct RecordView {
    pub user_id: Seq<char>,
    pub user_name: Seq<char>,
}

impl View for Event {
    type V = EventView;

    open spec fn view(&self) -> EventView {
        EventView { user_name: self.payload.user_name@, request_id: self.context.request_id@ }
    }
}

impl View for Response {
    type V = ResponseView;

    open spec fn view(&self) -> ResponseView {
        ResponseView { req_id: self.req_id@, msg: self.msg@ }
    }
}

impl View for Record {
    type V = RecordView;

    open spec fn view(&self) -> RecordView {
        RecordView { user_id: self.user_id@, user_name: self.user_name@ }
    }
}

} // verus!
