//! The notification document and its builder.
//!
//! A `FirebasePayload` is the wire document for one push notification:
//! a `message` object holding the device token, a generic notification
//! block, an Android block, an optional free-form `data` value, and an
//! Apple block whose alert mirrors the generic title and body. The
//! `*_tree` spec functions give the exact JSON shape each record
//! serializes to; optional fields are omitted entirely when unset,
//! never written as `null`, while the Android and Apple wrapper objects
//! are always present.

use vstd::prelude::*;
use vstd::string::*;

use crate::json::{
    render, jview, jview_pairs, lemma_jview_pairs, json_to_string, obj_has_key, obj_pair,
    JsonVal, JsonValue,
};

verus! {

#[derive(Debug)]
pub struct FirebasePayload {
    pub message: FirebaseNotification,
}

#[derive(Debug)]
pub struct FirebaseNotification {
    pub token: String,
    pub notification: Notification,
    pub android: AndroidField,
    pub data: Option<JsonValue>,
    pub apns: ApnField,
}

#[derive(Debug)]
pub struct AndroidField {
    pub notification: AndroidNotification,
}

#[derive(Debug)]
pub struct AndroidNotification {
    pub channel_id: Option<String>,
}

#[derive(Debug)]
pub struct Notification {
    pub title: String,
    pub body: Option<String>,
}

#[derive(Debug)]
pub struct ApnField {
    pub payload: ApnPayload,
}

#[derive(Debug)]
pub struct ApnPayload {
    pub aps: ApnAps,
}

#[derive(Debug)]
pub struct ApnAps {
    pub alert: ApnAlert,
    pub sound: Option<String>,
}

#[derive(Debug)]
pub struct ApnAlert {
    pub title: String,
    pub body: Option<String>,
}

/// The views of an optional string's characters.
pub open spec fn opt_text(o: Option<String>) -> Option<Seq<char>> {
    match o {
        Some(s) => Some(s@),
        None => None,
    }
}

/// The view of an optional JSON value.
pub open spec fn opt_tree(o: Option<JsonValue>) -> Option<JsonVal> {
    match o {
        Some(v) => Some(jview(v)),
        None => None,
    }
}

pub open spec fn notification_tree(n: Notification) -> JsonVal {
    JsonVal::Obj(
        seq![("title"@, JsonVal::Str(n.title@))]
            + if n.body is Some {
                seq![("body"@, JsonVal::Str(n.body->0@))]
            } else {
                Seq::empty()
            },
    )
}

pub open spec fn android_notification_tree(a: AndroidNotification) -> JsonVal {
    JsonVal::Obj(
        if a.channel_id is Some {
            seq![("channel_id"@, JsonVal::Str(a.channel_id->0@))]
        } else {
            Seq::empty()
        },
    )
}

pub open spec fn android_tree(a: AndroidField) -> JsonVal {
    JsonVal::Obj(seq![("notification"@, android_notification_tree(a.notification))])
}

pub open spec fn alert_tree(a: ApnAlert) -> JsonVal {
    JsonVal::Obj(
        seq![("title"@, JsonVal::Str(a.title@))]
            + if a.body is Some {
                seq![("body"@, JsonVal::Str(a.body->0@))]
            } else {
                Seq::empty()
            },
    )
}

pub open spec fn aps_tree(a: ApnAps) -> JsonVal {
    JsonVal::Obj(
        seq![("alert"@, alert_tree(a.alert))]
            + if a.sound is Some {
                seq![("sound"@, JsonVal::Str(a.sound->0@))]
            } else {
                Seq::empty()
            },
    )
}

pub open spec fn apn_payload_tree(p: ApnPayload) -> JsonVal {
    JsonVal::Obj(seq![("aps"@, aps_tree(p.aps))])
}

pub open spec fn apn_tree(a: ApnField) -> JsonVal {
    JsonVal::Obj(seq![("payload"@, apn_payload_tree(a.payload))])
}

pub open spec fn message_tree(m: FirebaseNotification) -> JsonVal {
    JsonVal::Obj(
        seq![
            ("token"@, JsonVal::Str(m.token@)),
            ("notification"@, notification_tree(m.notification)),
            ("android"@, android_tree(m.android)),
        ]
            + if m.data is Some {
                seq![("data"@, jview(m.data->0))]
            } else {
                Seq::empty()
            }
            + seq![("apns"@, apn_tree(m.apns))],
    )
}

pub open spec fn payload_tree(p: FirebasePayload) -> JsonVal {
    JsonVal::Obj(seq![("message"@, message_tree(p.message))])
}

fn notification_value(n: Notification) -> (v: JsonValue)
    ensures
        v@ == notification_tree(n),
{
    let mut pairs: Vec<(String, JsonValue)> = Vec::new();
    pairs.push((String::from_str("title"), JsonValue::Str(n.title)));
    match n.body {
        Some(b) => {
            pairs.push((String::from_str("body"), JsonValue::Str(b)));
        }
        None => {}
    }
    let v = JsonValue::Obj(pairs);
    proof {
        lemma_jview_pairs(v->Obj_0@, v->Obj_0@.len() as int);
        assert(v@ is Obj && notification_tree(n) is Obj);
        assert(v@->Obj_0 =~~= notification_tree(n)->Obj_0);
        assert(v@ =~~= notification_tree(n));
    }
    v
}

fn android_value(a: AndroidField) -> (v: JsonValue)
    ensures
        v@ == android_tree(a),
{
    let mut inner: Vec<(String, JsonValue)> = Vec::new();
    match a.notification.channel_id {
        Some(c) => {
            inner.push((String::from_str("channel_id"), JsonValue::Str(c)));
        }
        None => {}
    }
    let inner_value = JsonValue::Obj(inner);
    proof {
        lemma_jview_pairs(inner_value->Obj_0@, inner_value->Obj_0@.len() as int);
        assert(inner_value@ is Obj && android_notification_tree(a.notification) is Obj);
        assert(inner_value@->Obj_0 =~~= android_notification_tree(a.notification)->Obj_0);
        assert(inner_value@ =~~= android_notification_tree(a.notification));
    }
    let mut pairs: Vec<(String, JsonValue)> = Vec::new();
    pairs.push((String::from_str("notification"), inner_value));
    let v = JsonValue::Obj(pairs);
    proof {
        lemma_jview_pairs(v->Obj_0@, v->Obj_0@.len() as int);
        assert(v@ is Obj && android_tree(a) is Obj);
        assert(v@->Obj_0 =~~= android_tree(a)->Obj_0);
        assert(v@ =~~= android_tree(a));
    }
    v
}

fn apn_value(a: ApnField) -> (v: JsonValue)
    ensures
        v@ == apn_tree(a),
{
    let mut alert_pairs: Vec<(String, JsonValue)> = Vec::new();
    alert_pairs.push((String::from_str("title"), JsonValue::Str(a.payload.aps.alert.title)));
    match a.payload.aps.alert.body {
        Some(b) => {
            alert_pairs.push((String::from_str("body"), JsonValue::Str(b)));
        }
        None => {}
    }
    let ghost alert_spec = alert_tree(
        ApnAlert { title: a.payload.aps.alert.title, body: a.payload.aps.alert.body },
    );
    let alert_value = JsonValue::Obj(alert_pairs);
    proof {
        lemma_jview_pairs(alert_value->Obj_0@, alert_value->Obj_0@.len() as int);
        assert(alert_value@ is Obj && alert_spec is Obj);
        assert(alert_value@->Obj_0 =~~= alert_spec->Obj_0);
        assert(alert_value@ =~~= alert_spec);
    }
    let mut aps_pairs: Vec<(String, JsonValue)> = Vec::new();
    aps_pairs.push((String::from_str("alert"), alert_value));
    match a.payload.aps.sound {
        Some(s) => {
            aps_pairs.push((String::from_str("sound"), JsonValue::Str(s)));
        }
        None => {}
    }
    let aps_value = JsonValue::Obj(aps_pairs);
    proof {
        lemma_jview_pairs(aps_value->Obj_0@, aps_value->Obj_0@.len() as int);
        assert(aps_value@ is Obj && aps_tree(a.payload.aps) is Obj);
        assert(aps_value@->Obj_0 =~~= aps_tree(a.payload.aps)->Obj_0);
        assert(aps_value@ =~~= aps_tree(a.payload.aps));
    }
    let mut payload_pairs: Vec<(String, JsonValue)> = Vec::new();
    payload_pairs.push((String::from_str("aps"), aps_value));
    let payload_value = JsonValue::Obj(payload_pairs);
    proof {
        lemma_jview_pairs(payload_value->Obj_0@, payload_value->Obj_0@.len() as int);
        assert(payload_value@ is Obj && apn_payload_tree(a.payload) is Obj);
        assert(payload_value@->Obj_0 =~~= apn_payload_tree(a.payload)->Obj_0);
        assert(payload_value@ =~~= apn_payload_tree(a.payload));
    }
    let mut pairs: Vec<(String, JsonValue)> = Vec::new();
    pairs.push((String::from_str("payload"), payload_value));
    let v = JsonValue::Obj(pairs);
    proof {
        lemma_jview_pairs(v->Obj_0@, v->Obj_0@.len() as int);
        assert(v@ is Obj && apn_tree(a) is Obj);
        assert(v@->Obj_0 =~~= apn_tree(a)->Obj_0);
        assert(v@ =~~= apn_tree(a));
    }
    v
}

fn message_value(m: FirebaseNotification) -> (v: JsonValue)
    ensures
        v@ == message_tree(m),
{
    let ghost whole = m;
    let mut pairs: Vec<(String, JsonValue)> = Vec::new();
    pairs.push((String::from_str("token"), JsonValue::Str(m.token)));
    pairs.push((String::from_str("notification"), notification_value(m.notification)));
    pairs.push((String::from_str("android"), android_value(m.android)));
    match m.data {
        Some(d) => {
            pairs.push((String::from_str("data"), d));
        }
        None => {}
    }
    pairs.push((String::from_str("apns"), apn_value(m.apns)));
    let v = JsonValue::Obj(pairs);
    proof {
        lemma_jview_pairs(v->Obj_0@, v->Obj_0@.len() as int);
        assert(v@ is Obj && message_tree(whole) is Obj);
        assert(v@->Obj_0 =~~= message_tree(whole)->Obj_0);
        assert(v@ =~~= message_tree(whole));
    }
    v
}

/// Turns the document into its JSON value, with exactly the shape
/// `payload_tree` describes.
pub fn payload_value(p: FirebasePayload) -> (v: JsonValue)
    ensures
        v@ == payload_tree(p),
{
    let ghost whole = p;
    let mut pairs: Vec<(String, JsonValue)> = Vec::new();
    pairs.push((String::from_str("message"), message_value(p.message)));
    let v = JsonValue::Obj(pairs);
    proof {
        lemma_jview_pairs(v->Obj_0@, v->Obj_0@.len() as int);
        assert(v@ is Obj && payload_tree(whole) is Obj);
        assert(v@->Obj_0 =~~= payload_tree(whole)->Obj_0);
        assert(v@ =~~= payload_tree(whole));
    }
    v
}

impl FirebasePayload {
    /// Serializes the document to its canonical compact JSON text.
    pub fn to_json(self) -> (s: String)
        ensures
            s@ == render(payload_tree(self)),
    {
        let v = payload_value(self);
        json_to_string(&v)
    }
}

/// Accumulates the fields of one notification and produces the
/// finished document exactly once.
#[derive(Debug)]
pub struct NotificationBuilder {
    pub token: String,
    pub title: String,
    pub message: Option<String>,
    pub android_channel_id: Option<String>,
    pub data: Option<JsonValue>,
    pub apn_sound: Option<String>,
}

/// The document a builder state finalizes to: the title and body are
/// mirrored into both the generic notification block and the Apple
/// alert block.
pub open spec fn spec_build(b: NotificationBuilder) -> FirebasePayload {
    FirebasePayload {
        message: FirebaseNotification {
            token: b.token,
            notification: Notification { title: b.title, body: b.message },
            android: AndroidField {
                notification: AndroidNotification { channel_id: b.android_channel_id },
            },
            data: b.data,
            apns: ApnField {
                payload: ApnPayload {
                    aps: ApnAps {
                        alert: ApnAlert { title: b.title, body: b.message },
                        sound: b.apn_sound,
                    },
                },
            },
        },
    }
}

/// The JSON shape of the document a builder state finalizes to.
pub open spec fn built_tree(b: NotificationBuilder) -> JsonVal {
    payload_tree(spec_build(b))
}

/// The message trees of two documents agree whenever the texts of all
/// their fields agree; the tree never depends on anything else.
pub proof fn lemma_tree_from_views(a: FirebaseNotification, b: FirebaseNotification)
    requires
        a.token@ == b.token@,
        a.notification.title@ == b.notification.title@,
        opt_text(a.notification.body) == opt_text(b.notification.body),
        opt_text(a.android.notification.channel_id)
            == opt_text(b.android.notification.channel_id),
        opt_tree(a.data) == opt_tree(b.data),
        a.apns.payload.aps.alert.title@ == b.apns.payload.aps.alert.title@,
        opt_text(a.apns.payload.aps.alert.body) == opt_text(b.apns.payload.aps.alert.body),
        opt_text(a.apns.payload.aps.sound) == opt_text(b.apns.payload.aps.sound),
    ensures
        message_tree(a) == message_tree(b),
{
    assert(notification_tree(a.notification)->Obj_0
        =~~= notification_tree(b.notification)->Obj_0);
    assert(notification_tree(a.notification) =~~= notification_tree(b.notification));
    assert(android_notification_tree(a.android.notification)->Obj_0
        =~~= android_notification_tree(b.android.notification)->Obj_0);
    assert(android_notification_tree(a.android.notification)
        =~~= android_notification_tree(b.android.notification));
    assert(android_tree(a.android)->Obj_0 =~~= android_tree(b.android)->Obj_0);
    assert(android_tree(a.android) =~~= android_tree(b.android));
    assert(alert_tree(a.apns.payload.aps.alert)->Obj_0
        =~~= alert_tree(b.apns.payload.aps.alert)->Obj_0);
    assert(alert_tree(a.apns.payload.aps.alert) =~~= alert_tree(b.apns.payload.aps.alert));
    assert(aps_tree(a.apns.payload.aps)->Obj_0 =~~= aps_tree(b.apns.payload.aps)->Obj_0);
    assert(aps_tree(a.apns.payload.aps) =~~= aps_tree(b.apns.payload.aps));
    assert(apn_payload_tree(a.apns.payload)->Obj_0
        =~~= apn_payload_tree(b.apns.payload)->Obj_0);
    assert(apn_payload_tree(a.apns.payload) =~~= apn_payload_tree(b.apns.payload));
    assert(apn_tree(a.apns)->Obj_0 =~~= apn_tree(b.apns)->Obj_0);
    assert(apn_tree(a.apns) =~~= apn_tree(b.apns));
    assert(message_tree(a)->Obj_0 =~~= message_tree(b)->Obj_0);
    assert(message_tree(a) =~~= message_tree(b));
}

impl NotificationBuilder {
    /// Starts a builder from the two required fields. Nothing else is
    /// set yet.
    pub fn new(title: &str, token: &str) -> (b: NotificationBuilder)
        ensures
            b.title@ == title@,
            b.token@ == token@,
            b.message is None,
            b.android_channel_id is None,
            b.data is None,
            b.apn_sound is None,
    {
        NotificationBuilder {
            title: title.to_owned(),
            token: token.to_owned(),
            message: None,
            android_channel_id: None,
            data: None,
            apn_sound: None,
        }
    }

    /// Sets the display body; every other field is left as it was.
    pub fn message(self, message: &str) -> (r: NotificationBuilder)
        ensures
            r.message matches Some(m) && m@ == message@,
            r.token == self.token,
            r.title == self.title,
            r.android_channel_id == self.android_channel_id,
            r.data == self.data,
            r.apn_sound == self.apn_sound,
    {
        NotificationBuilder { message: Some(message.to_owned()), ..self }
    }

    /// Sets the Android delivery channel; every other field is left as
    /// it was.
    pub fn android_channel_id(self, android_channel_id: &str) -> (r: NotificationBuilder)
        ensures
            r.android_channel_id matches Some(c) && c@ == android_channel_id@,
            r.token == self.token,
            r.title == self.title,
            r.message == self.message,
            r.data == self.data,
            r.apn_sound == self.apn_sound,
    {
        NotificationBuilder {
            android_channel_id: Some(android_channel_id.to_owned()),
            ..self
        }
    }

    /// Attaches the free-form data value; every other field is left as
    /// it was.
    pub fn data(self, data: JsonValue) -> (r: NotificationBuilder)
        ensures
            r.data == Some(data),
            r.token == self.token,
            r.title == self.title,
            r.message == self.message,
            r.android_channel_id == self.android_channel_id,
            r.apn_sound == self.apn_sound,
    {
        NotificationBuilder { data: Some(data), ..self }
    }

    /// Sets the Apple sound name; every other field is left as it was.
    pub fn apn_sound(self, apn_sound: String) -> (r: NotificationBuilder)
        ensures
            r.apn_sound == Some(apn_sound),
            r.token == self.token,
            r.title == self.title,
            r.message == self.message,
            r.android_channel_id == self.android_channel_id,
            r.data == self.data,
    {
        NotificationBuilder { apn_sound: Some(apn_sound), ..self }
    }

    /// Consumes the builder and produces the document: the title and
    /// body stand both in the generic notification block and in the
    /// Apple alert, the channel id in the Android block, the sound in
    /// the Apple block, and the data value is carried over unchanged.
    pub fn build(self) -> (r: FirebasePayload)
        ensures
            r.message.token == self.token,
            r.message.notification.title@ == self.title@,
            opt_text(r.message.notification.body) == opt_text(self.message),
            opt_text(r.message.android.notification.channel_id)
                == opt_text(self.android_channel_id),
            r.message.data == self.data,
            r.message.apns.payload.aps.alert.title@ == self.title@,
            opt_text(r.message.apns.payload.aps.alert.body) == opt_text(self.message),
            opt_text(r.message.apns.payload.aps.sound) == opt_text(self.apn_sound),
            payload_tree(r) == built_tree(self),
    {
        let title_clone = self.title.clone();
        let body_clone: Option<String> = match &self.message {
            Some(m) => Some(m.clone()),
            None => None,
        };
        let notification = Notification { title: title_clone, body: body_clone };
        let android = AndroidField {
            notification: AndroidNotification { channel_id: self.android_channel_id },
        };
        let apn_field = ApnField {
            payload: ApnPayload {
                aps: ApnAps {
                    alert: ApnAlert { title: self.title, body: self.message },
                    sound: self.apn_sound,
                },
            },
        };
        let r = FirebasePayload {
            message: FirebaseNotification {
                token: self.token,
                notification,
                android,
                data: self.data,
                apns: apn_field,
            },
        };
        proof {
            lemma_tree_from_views(r.message, spec_build(self).message);
            assert(payload_tree(r)->Obj_0 =~~= built_tree(self)->Obj_0);
            assert(payload_tree(r) =~~= built_tree(self));
        }
        r
    }
}

/// Equally configured builders finalize to documents with the same
/// serialized text, character for character.
pub proof fn lemma_build_deterministic(b1: NotificationBuilder, b2: NotificationBuilder)
    requires
        b1.token@ == b2.token@,
        b1.title@ == b2.title@,
        opt_text(b1.message) == opt_text(b2.message),
        opt_text(b1.android_channel_id) == opt_text(b2.android_channel_id),
        opt_tree(b1.data) == opt_tree(b2.data),
        opt_text(b1.apn_sound) == opt_text(b2.apn_sound),
    ensures
        built_tree(b1) == built_tree(b2),
        render(built_tree(b1)) == render(built_tree(b2)),
{
    lemma_tree_from_views(spec_build(b1).message, spec_build(b2).message);
    assert(built_tree(b1)->Obj_0 =~~= built_tree(b2)->Obj_0);
    assert(built_tree(b1) =~~= built_tree(b2));
}

/// The generic notification block and the Apple alert block of a built
/// document hold the identical title and body: the two blocks are the
/// same JSON object and serialize to the same text.
pub proof fn lemma_title_body_mirrored(b: NotificationBuilder)
    ensures
        notification_tree(spec_build(b).message.notification)
            == alert_tree(spec_build(b).message.apns.payload.aps.alert),
        render(notification_tree(spec_build(b).message.notification))
            == render(alert_tree(spec_build(b).message.apns.payload.aps.alert)),
{
    let n = spec_build(b).message.notification;
    let a = spec_build(b).message.apns.payload.aps.alert;
    assert(notification_tree(n)->Obj_0 =~~= alert_tree(a)->Obj_0);
    assert(notification_tree(n) =~~= alert_tree(a));
}

/// An optional field left unset contributes no member at all to its
/// block — not even a null one — and a field set to a value appears
/// with exactly that value.
pub proof fn lemma_optional_fields(b: NotificationBuilder)
    ensures
        obj_has_key(notification_tree(spec_build(b).message.notification), "body"@)
            <==> b.message is Some,
        b.message matches Some(m) ==> obj_pair(
            notification_tree(spec_build(b).message.notification),
            "body"@,
            JsonVal::Str(m@),
        ),
        obj_has_key(
            android_notification_tree(spec_build(b).message.android.notification),
            "channel_id"@,
        ) <==> b.android_channel_id is Some,
        b.android_channel_id matches Some(c) ==> obj_pair(
            android_notification_tree(spec_build(b).message.android.notification),
            "channel_id"@,
            JsonVal::Str(c@),
        ),
        obj_has_key(message_tree(spec_build(b).message), "data"@) <==> b.data is Some,
        obj_has_key(aps_tree(spec_build(b).message.apns.payload.aps), "sound"@)
            <==> b.apn_sound is Some,
        b.apn_sound matches Some(s) ==> obj_pair(
            aps_tree(spec_build(b).message.apns.payload.aps),
            "sound"@,
            JsonVal::Str(s@),
        ),
{
    reveal_strlit("title");
    reveal_strlit("body");
    reveal_strlit("channel_id");
    reveal_strlit("token");
    reveal_strlit("notification");
    reveal_strlit("android");
    reveal_strlit("data");
    reveal_strlit("apns");
    reveal_strlit("alert");
    reveal_strlit("sound");
    let m = spec_build(b).message;
    let nt = notification_tree(m.notification);
    if b.message is Some {
        assert(nt->Obj_0[1].0 == "body"@);
    } else {
        assert(nt->Obj_0.len() == 1);
        assert(nt->Obj_0[0].0 == "title"@);
    }
    let at = android_notification_tree(m.android.notification);
    if b.android_channel_id is Some {
        assert(at->Obj_0[0].0 == "channel_id"@);
    }
    let mt = message_tree(m);
    if b.data is Some {
        assert(mt->Obj_0[3].0 == "data"@);
    } else {
        assert(mt->Obj_0.len() == 4);
        assert(mt->Obj_0[0].0 == "token"@);
        assert(mt->Obj_0[1].0 == "notification"@);
        assert(mt->Obj_0[2].0 == "android"@);
        assert(mt->Obj_0[3].0 == "apns"@);
    }
    let st = aps_tree(m.apns.payload.aps);
    if b.apn_sound is Some {
        assert(st->Obj_0[1].0 == "sound"@);
    } else {
        assert(st->Obj_0.len() == 1);
        assert(st->Obj_0[0].0 == "alert"@);
    }
    if b.data is None {
        assert("apns"@[0] != "data"@[0]);
        assert("apns"@ != "data"@);
    }
    if b.apn_sound is None {
        assert("alert"@[0] != "sound"@[0]);
        assert("alert"@ != "sound"@);
    }
}

/// The Android and Apple wrapper objects are present in every built
/// document, whether or not their optional leaves were set.
pub proof fn lemma_platform_blocks_present(b: NotificationBuilder)
    ensures
        obj_has_key(message_tree(spec_build(b).message), "android"@),
        obj_has_key(message_tree(spec_build(b).message), "apns"@),
{
    let mt = message_tree(spec_build(b).message);
    assert(mt->Obj_0[2].0 == "android"@);
    if spec_build(b).message.data is Some {
        assert(mt->Obj_0[4].0 == "apns"@);
    } else {
        assert(mt->Obj_0[3].0 == "apns"@);
    }
}

/// A data value attached to the builder appears under the `data` key
/// of the message object exactly as given.
pub proof fn lemma_data_passthrough(b: NotificationBuilder)
    ensures
        b.data matches Some(d) ==> obj_pair(
            message_tree(spec_build(b).message),
            "data"@,
            jview(d),
        ),
{
    let mt = message_tree(spec_build(b).message);
    if b.data is Some {
        assert(mt->Obj_0[3] == ("data"@, jview(b.data->0)));
    }
}

} // verus!
