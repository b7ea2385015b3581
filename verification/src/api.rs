//! The plain data that a watch session reads and produces: the query
//! configuration, the request built from it, and the events that come back.

use crate::text::{clone_text, text_of};
use vstd::prelude::*;

verus! {

/// The error code by which a server says that the history asked for is no
/// longer kept.
pub const GONE: u16 = 410;

/// How a watch is configured.
#[derive(Debug, PartialEq, Eq)]
pub struct ListParams {
    /// Restricts the watch to objects whose labels match.
    pub label_selector: Option<String>,
    /// Restricts the watch to objects whose fields match.
    pub field_selector: Option<String>,
    /// How many seconds the server keeps one watch open.
    pub timeout: Option<u32>,
    /// A starting version. It is advisory only: every request starts at the
    /// version that the session has stored.
    pub resource_version: Option<String>,
}

/// What a `ListParams` holds.
pub struct ListParamsView {
    pub label_selector: Option<Seq<char>>,
    pub field_selector: Option<Seq<char>>,
    pub timeout: Option<u32>,
    pub resource_version: Option<Seq<char>>,
}

impl View for ListParams {
    type V = ListParamsView;

    open spec fn view(&self) -> ListParamsView {
        ListParamsView {
            label_selector: text_of(self.label_selector),
            field_selector: text_of(self.field_selector),
            timeout: self.timeout,
            resource_version: text_of(self.resource_version),
        }
    }
}

impl ListParamsView {
    /// The configuration that restricts nothing.
    pub open spec fn empty() -> ListParamsView {
        ListParamsView {
            label_selector: None,
            field_selector: None,
            timeout: None,
            resource_version: None,
        }
    }

    /// The request that this configuration makes when the watch starts at
    /// `version`. The configuration's own starting version plays no part.
    pub open spec fn request_at(self, version: Seq<char>) -> WatchRequestView {
        WatchRequestView {
            label_selector: self.label_selector,
            field_selector: self.field_selector,
            timeout: self.timeout,
            resource_version: version,
        }
    }
}

impl Default for ListParams {
    fn default() -> (lp: ListParams)
        ensures
            lp@ == ListParamsView::empty(),
    {
        ListParams {
            label_selector: None,
            field_selector: None,
            timeout: None,
            resource_version: None,
        }
    }
}

impl Clone for ListParams {
    fn clone(&self) -> (lp: ListParams)
        ensures
            lp == *self,
    {
        ListParams {
            label_selector: clone_text(&self.label_selector),
            field_selector: clone_text(&self.field_selector),
            timeout: self.timeout,
            resource_version: clone_text(&self.resource_version),
        }
    }
}

impl ListParams {
    /// Sets the number of seconds after which the server closes a watch.
    pub fn timeout(self, seconds: u32) -> (lp: ListParams)
        ensures
            lp@ == (ListParamsView { timeout: Some(seconds), ..self@ }),
    {
        ListParams { timeout: Some(seconds), ..self }
    }

    /// Restricts the watch by a label selector.
    pub fn labels(self, selector: &str) -> (lp: ListParams)
        ensures
            lp@ == (ListParamsView { label_selector: Some(selector@), ..self@ }),
    {
        ListParams { label_selector: Some(selector.to_string()), ..self }
    }

    /// Restricts the watch by a field selector.
    pub fn fields(self, selector: &str) -> (lp: ListParams)
        ensures
            lp@ == (ListParamsView { field_selector: Some(selector@), ..self@ }),
    {
        ListParams { field_selector: Some(selector.to_string()), ..self }
    }

    /// The request that opens a watch with this configuration at `version`.
    pub fn request_at(&self, version: String) -> (request: WatchRequest)
        ensures
            request@ == self@.request_at(version@),
    {
        WatchRequest {
            label_selector: clone_text(&self.label_selector),
            field_selector: clone_text(&self.field_selector),
            timeout: self.timeout,
            resource_version: version,
        }
    }
}

/// One watch request, as handed to the transport.
#[derive(Debug, PartialEq, Eq)]
pub struct WatchRequest {
    pub label_selector: Option<String>,
    pub field_selector: Option<String>,
    pub timeout: Option<u32>,
    /// The version after which the server is asked to report changes.
    pub resource_version: String,
}

/// What a `WatchRequest` holds.
pub struct WatchRequestView {
    pub label_selector: Option<Seq<char>>,
    pub field_selector: Option<Seq<char>>,
    pub timeout: Option<u32>,
    pub resource_version: Seq<char>,
}

impl View for WatchRequest {
    type V = WatchRequestView;

    open spec fn view(&self) -> WatchRequestView {
        WatchRequestView {
            label_selector: text_of(self.label_selector),
            field_selector: text_of(self.field_selector),
            timeout: self.timeout,
            resource_version: self.resource_version@,
        }
    }
}

impl Clone for WatchRequest {
    fn clone(&self) -> (request: WatchRequest)
        ensures
            request == *self,
    {
        WatchRequest {
            label_selector: clone_text(&self.label_selector),
            field_selector: clone_text(&self.field_selector),
            timeout: self.timeout,
            resource_version: self.resource_version.clone(),
        }
    }
}

/// What the session reads of a watched object.
#[derive(Debug, PartialEq, Eq)]
pub struct Object {
    /// The version at which the server reported the object, if it gave one.
    pub resource_version: Option<String>,
}

impl Clone for Object {
    fn clone(&self) -> (object: Object)
        ensures
            object == *self,
    {
        Object { resource_version: clone_text(&self.resource_version) }
    }
}

/// An error that the server reports inside the stream.
#[derive(Debug, PartialEq, Eq)]
pub struct ErrorResponse {
    pub status: String,
    pub message: String,
    pub reason: String,
    pub code: u16,
}

impl Clone for ErrorResponse {
    fn clone(&self) -> (error: ErrorResponse)
        ensures
            error == *self,
    {
        ErrorResponse {
            status: self.status.clone(),
            message: self.message.clone(),
            reason: self.reason.clone(),
            code: self.code,
        }
    }
}

/// One change notification.
#[derive(Debug, PartialEq, Eq)]
pub enum WatchEvent {
    Added(Object),
    Modified(Object),
    Deleted(Object),
    Error(ErrorResponse),
}

impl Clone for WatchEvent {
    fn clone(&self) -> (event: WatchEvent)
        ensures
            event == *self,
    {
        match self {
            WatchEvent::Added(o) => WatchEvent::Added(o.clone()),
            WatchEvent::Modified(o) => WatchEvent::Modified(o.clone()),
            WatchEvent::Deleted(o) => WatchEvent::Deleted(o.clone()),
            WatchEvent::Error(e) => WatchEvent::Error(e.clone()),
        }
    }
}

impl WatchEvent {
    /// The version that the event carries: that of its object, for an
    /// addition, a modification or a deletion that has one.
    pub open spec fn version(self) -> Option<Seq<char>> {
        match self {
            WatchEvent::Added(o) | WatchEvent::Modified(o) | WatchEvent::Deleted(o) => text_of(
                o.resource_version,
            ),
            WatchEvent::Error(_) => None,
        }
    }

    /// Whether the event reports that the requested history has expired.
    pub open spec fn history_expired(self) -> bool {
        self matches WatchEvent::Error(e) && e.code == GONE
    }

    /// The version that the event carries, if any.
    pub fn resource_ver(&self) -> (v: Option<&String>)
        ensures
            v is Some <==> self.version() is Some,
            v matches Some(s) ==> self.version() == Some(s@),
    {
        match self {
            WatchEvent::Added(o) | WatchEvent::Modified(o) | WatchEvent::Deleted(o) => {
                o.resource_version.as_ref()
            },
            WatchEvent::Error(_) => None,
        }
    }

    /// Whether the event reports that the requested history has expired.
    pub fn is_history_expired(&self) -> (b: bool)
        ensures
            b == self.history_expired(),
    {
        match self {
            WatchEvent::Error(e) => e.code == GONE,
            _ => false,
        }
    }
}

} // verus!
