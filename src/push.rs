//! The push message that asks the enrolled device to dial in.

use vstd::prelude::*;
use vstd::string::StringExecFns;

use crate::session::{decimal, decimal_spec};

verus! {

/// A visible notification.
pub struct Notification {
    pub title: String,
    pub body: String,
}

/// Delivery options of the messaging service.
pub struct FCMOptions {
    pub analytics_label: Option<String>,
}

/// Delivery priority of an Android message.
#[derive(PartialEq, Eq, Structural, Clone, Copy, Debug)]
pub enum Priority {
    Normal,
    High,
}

/// Android-specific part of a message; `data` holds key-value pairs in order.
pub struct AndroidConfig {
    pub collapse_key: Option<String>,
    pub priority: Option<Priority>,
    pub ttl: Option<String>,
    pub restricted_package_name: Option<String>,
    pub data: Option<Vec<(String, String)>>,
    pub notification: Option<Notification>,
    pub fcm_options: Option<FCMOptions>,
    pub direct_boot_ok: Option<bool>,
}

/// A message to one device, or the service's answer naming a sent message.
pub struct Message {
    pub name: Option<String>,
    pub token: Option<String>,
    pub notification: Option<Notification>,
    pub android: Option<AndroidConfig>,
}

/// The body of a send request.
pub struct FCMMessage {
    pub validate_only: Option<bool>,
    pub message: Message,
}

/// The registration token of the enrolled device.
pub open spec fn device_token_spec() -> Seq<char> {
    "f3Aff7-AQ6Wid_UFfd15RQ:APA91bFtxN49M-Y_dhDKnG8m_0YBv7K9CGD-SBA6O0V8Ls75mYayRlGTC3vuRs9rU_D6R8bF-M0QMXifrcoR8xZ7fIETdgxmqFsQ_qzGIwNU83jCsclFOPs"@
}

pub fn device_token() -> (r: String)
    ensures
        r@ == device_token_spec(),
{
    proof {
        reveal_strlit(
            "f3Aff7-AQ6Wid_UFfd15RQ:APA91bFtxN49M-Y_dhDKnG8m_0YBv7K9CGD-SBA6O0V8Ls75mYayRlGTC3vuRs9rU_D6R8bF-M0QMXifrcoR8xZ7fIETdgxmqFsQ_qzGIwNU83jCsclFOPs",
        );
    }
    String::from_str(
        "f3Aff7-AQ6Wid_UFfd15RQ:APA91bFtxN49M-Y_dhDKnG8m_0YBv7K9CGD-SBA6O0V8Ls75mYayRlGTC3vuRs9rU_D6R8bF-M0QMXifrcoR8xZ7fIETdgxmqFsQ_qzGIwNU83jCsclFOPs",
    )
}

/// The push that asks device `id` to dial in: addressed to the enrolled
/// device's token, high priority, with the device id and the origin host as
/// data and nothing else set.
pub fn auth_notification(id: u8, hostname: &str) -> (r: FCMMessage)
    ensures
        r.validate_only is None,
        r.message.name is None,
        r.message.notification is None,
        r.message.token matches Some(t) && t@ == device_token_spec(),
        r.message.android matches Some(a) && {
            &&& a.priority == Some(Priority::High)
            &&& a.collapse_key is None
            &&& a.ttl is None
            &&& a.restricted_package_name is None
            &&& a.notification is None
            &&& a.fcm_options is None
            &&& a.direct_boot_ok is None
            &&& a.data matches Some(d) && {
                &&& d@.len() == 2
                &&& d@[0].0@ == "id"@
                &&& d@[0].1@ == decimal_spec(id as nat)
                &&& d@[1].0@ == "device"@
                &&& d@[1].1@ == hostname@
            }
        },
{
    proof {
        reveal_strlit("id");
        reveal_strlit("device");
    }
    let mut data: Vec<(String, String)> = Vec::new();
    data.push((String::from_str("id"), decimal(id)));
    data.push((String::from_str("device"), String::from_str(hostname)));
    let android = AndroidConfig {
        collapse_key: None,
        priority: Some(Priority::High),
        ttl: None,
        restricted_package_name: None,
        data: Some(data),
        notification: None,
        fcm_options: None,
        direct_boot_ok: None,
    };
    FCMMessage {
        validate_only: None,
        message: Message {
            name: None,
            token: Some(device_token()),
            notification: None,
            android: Some(android),
        },
    }
}

} // verus!
