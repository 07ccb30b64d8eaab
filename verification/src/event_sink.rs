//! Typed event sinks for framework notifications.
//!
//! A sink receives each event as a name and a payload; the helpers here
//! classify the name.  Implement the traits to handle the typed detail
//! records that `crate::notification` decodes.

use vstd::prelude::*;

use crate::common::NotificationType;
use crate::notification::{
    ControllerActionDetail, NodeActionDetail, NodePipelineNodeDetail, NodeRecognitionDetail,
    ResourceLoadingDetail, TaskerTaskDetail,
};
use crate::text::str_find;

verus! {

/// Receives every event notification of one source.
pub trait EventSink {
    /// Called for each event: the message name and the raw payload
    /// text.
    fn on_event(&self, msg: &str, details_json: &str);

    /// Called when the notification type cannot be determined.
    fn on_unknown(&self, msg: &str, details_json: &str);
}

/// Receives resource-loading events.
pub trait ResourceEventSink {
    /// Called for each resource-loading event.
    fn on_resource_loading(&self, noti_type: NotificationType, detail: ResourceLoadingDetail);
}

/// Receives controller-action events.
pub trait ControllerEventSink {
    /// Called for each controller-action event.
    fn on_controller_action(
        &self,
        noti_type: NotificationType,
        detail: ControllerActionDetail,
    );
}

/// Receives task lifecycle events.
pub trait TaskerEventSink {
    /// Called for each task lifecycle event.
    fn on_tasker_task(&self, noti_type: NotificationType, detail: TaskerTaskDetail);
}

/// Receives node-scoped events.
pub trait ContextEventSink {
    /// Called for each pipeline-node event.
    fn on_node_pipeline_node(
        &self,
        noti_type: NotificationType,
        detail: NodePipelineNodeDetail,
    );

    /// Called for each node recognition event.
    fn on_node_recognition(&self, noti_type: NotificationType, detail: NodeRecognitionDetail);

    /// Called for each node action event.
    fn on_node_action(&self, noti_type: NotificationType, detail: NodeActionDetail);
}

/// Classify a notification message by its suffix.
pub fn parse_notification_type(msg: &str) -> (r: NotificationType)
    ensures
        r == crate::common::spec_notification_type(msg@),
{
    NotificationType::from_message(msg)
}

/// The category of a message: everything before its first dot, or the
/// whole message when it has none.
pub open spec fn spec_parse_category(s: Seq<char>) -> Seq<char> {
    if exists|i: int| 0 <= i < s.len() && s[i] == '.' {
        let i = choose|i: int| 0 <= i < s.len() && s[i] == '.' && (forall|j: int|
            0 <= j < i ==> s[j] != '.');
        s.subrange(0, i)
    } else {
        s
    }
}

/// Read a message's category: the prefix before the first dot.
pub fn parse_category<'a>(msg: &'a str) -> (r: Option<&'a str>)
    ensures
        r matches Some(c) && c@ == spec_parse_category(msg@),
{
    match str_find(msg, '.') {
        Some(i) => {
            let c = msg.substring_char(0, i);
            proof {
                let w = choose|w: int|
                    0 <= w < msg@.len() && msg@[w] == '.' && (forall|j: int|
                        0 <= j < w ==> msg@[j] != '.');
                assert(w == i as int);
            }
            Some(c)
        },
        None => {
            proof {
                assert(msg@.subrange(0, msg@.len() as int) =~= msg@);
            }
            Some(msg)
        },
    }
}

} // verus!
