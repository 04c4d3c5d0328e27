//! Notifications: messages from the kernel in place of data.

use vstd::prelude::*;
use vstd::slice::{slice_subrange, slice_to_vec};
use crate::bytes::{le16, le32, le_i32, read_le16, read_le32, read_le_i32};
use crate::consts::{SCTP_ASSOC_CHANGE, SCTP_SHUTDOWN_EVENT};
use crate::error::SctpError;
use crate::types::{
    AssocChangeState, AssociationChange, AssociationChangeView, Event, Notification,
    NotificationView, Shutdown,
};

verus! {

/// Size of the fixed fields of an association-change notification.
pub const ASSOC_CHANGE_LEN: usize = 20;

/// Size of a shutdown notification.
pub const SHUTDOWN_EVENT_LEN: usize = 12;

/// Whether a message holds all the fixed fields of the notification that
/// its type tag announces: the tag itself for every message, 20 bytes for
/// an association change, 12 for a shutdown.
pub open spec fn spec_notification_complete(data: Seq<u8>) -> bool {
    &&& data.len() >= 2
    &&& le16(data, 0) == SCTP_ASSOC_CHANGE ==> data.len() >= 20
    &&& le16(data, 0) == SCTP_SHUTDOWN_EVENT ==> data.len() >= 12
}

/// The notification that a message holds.
///
/// The type tag is the 16-bit number at offset 0. An association change
/// has its flags at offset 2, its length at 4, the state at 8, the error at
/// 10, the numbers of outbound and inbound streams at 12 and 14, the
/// association id at 16, and everything from offset 20 on is kept as it
/// is. A shutdown has flags and length at the same places and the
/// association id at 8. Every other type tag is `Unsupported`.
pub open spec fn spec_notification(data: Seq<u8>) -> NotificationView {
    let tag = le16(data, 0);
    if tag == SCTP_ASSOC_CHANGE {
        NotificationView::AssociationChange(
            AssociationChangeView {
                ev_type: Event::spec_from_u16(tag),
                flags: le16(data, 2),
                length: le32(data, 4),
                state: AssocChangeState::spec_from_u16(le16(data, 8)),
                error: le16(data, 10),
                ob_streams: le16(data, 12),
                ib_streams: le16(data, 14),
                assoc_id: le_i32(data, 16),
                info: data.subrange(20, data.len() as int),
            },
        )
    } else if tag == SCTP_SHUTDOWN_EVENT {
        NotificationView::Shutdown(
            Shutdown {
                ev_type: Event::spec_from_u16(tag),
                flags: le16(data, 2),
                length: le32(data, 4),
                assoc_id: le_i32(data, 8),
            },
        )
    } else {
        NotificationView::Unsupported
    }
}

/// Decodes the notification that a message holds.
pub fn notification_from_message(data: &[u8]) -> (notification: Notification)
    requires
        spec_notification_complete(data@),
    ensures
        notification@ == spec_notification(data@),
{
    let tag: u16 = read_le16(data, 0);
    if tag == SCTP_ASSOC_CHANGE {
        let info: Vec<u8> = slice_to_vec(slice_subrange(data, ASSOC_CHANGE_LEN, data.len()));
        Notification::AssociationChange(
            AssociationChange {
                ev_type: Event::from_u16(tag),
                flags: read_le16(data, 2),
                length: read_le32(data, 4),
                state: AssocChangeState::from_u16(read_le16(data, 8)),
                error: read_le16(data, 10),
                ob_streams: read_le16(data, 12),
                ib_streams: read_le16(data, 14),
                assoc_id: read_le_i32(data, 16),
                info,
            },
        )
    } else if tag == SCTP_SHUTDOWN_EVENT {
        Notification::Shutdown(
            Shutdown {
                ev_type: Event::from_u16(tag),
                flags: read_le16(data, 2),
                length: read_le32(data, 4),
                assoc_id: read_le_i32(data, 8),
            },
        )
    } else {
        Notification::Unsupported
    }
}

/// Decodes the notification that a message holds, where the message is
/// long enough for it, and is `Truncated` where it is not.
pub fn decode_notification(data: &[u8]) -> (r: Result<Notification, SctpError>)
    ensures
        spec_notification_complete(data@) ==> (r matches Ok(n) && n@ == spec_notification(data@)),
        !spec_notification_complete(data@) ==> r == Err::<Notification, SctpError>(
            SctpError::Truncated,
        ),
{
    if data.len() < 2 {
        return Err(SctpError::Truncated);
    }
    let tag: u16 = read_le16(data, 0);
    if tag == SCTP_ASSOC_CHANGE && data.len() < ASSOC_CHANGE_LEN {
        return Err(SctpError::Truncated);
    }
    if tag == SCTP_SHUTDOWN_EVENT && data.len() < SHUTDOWN_EVENT_LEN {
        return Err(SctpError::Truncated);
    }
    Ok(notification_from_message(data))
}

} // verus!
