//! The payloads of an activity as it is sent to, and echoed back by, Discord.

use vstd::prelude::*;

use crate::errors::TimestampError;
use crate::time::{duration_as_secs, duration_secs, get_current_timestamp};
use crate::types::activity::{
    lemma_activity_view,     opt_assets_view, opt_buttons_view, ActivitySpec, ActivitySpecModel, ActivityType,
    StatusDisplayType,
};
use crate::utils::{opt_as_str, opt_str_view, opt_string_view};

verus! {

/// The abstract content of the assets of an activity.
pub struct AssetsModel {
    pub large_image: Option<Seq<char>>,
    pub large_url: Option<Seq<char>>,
    pub large_text: Option<Seq<char>>,
    pub small_image: Option<Seq<char>>,
    pub small_text: Option<Seq<char>>,
    pub small_url: Option<Seq<char>>,
}

/// The assets of an activity: the large and the small image, each with its
/// hover text and its URL.
#[derive(Debug, Clone)]
pub struct AssetsPayload {
    pub large_image: Option<String>,
    pub large_url: Option<String>,
    pub large_text: Option<String>,
    pub small_image: Option<String>,
    pub small_text: Option<String>,
    pub small_url: Option<String>,
}

impl View for AssetsPayload {
    type V = AssetsModel;

    open spec fn view(&self) -> AssetsModel {
        AssetsModel {
            large_image: opt_string_view(self.large_image),
            large_url: opt_string_view(self.large_url),
            large_text: opt_string_view(self.large_text),
            small_image: opt_string_view(self.small_image),
            small_text: opt_string_view(self.small_text),
            small_url: opt_string_view(self.small_url),
        }
    }
}

/// A field of the assets object as it appears on the wire.
#[derive(Debug, Clone, Copy, PartialEq, Eq, Structural)]
pub enum AssetField {
    LargeImage,
    LargeText,
    LargeUrl,
    SmallImage,
    SmallText,
    SmallUrl,
}

/// The JSON key of each field.
pub open spec fn field_key(f: AssetField) -> Seq<char> {
    match f {
        AssetField::LargeImage => "large_image"@,
        AssetField::LargeText => "large_text"@,
        AssetField::LargeUrl => "large_url"@,
        AssetField::SmallImage => "small_image"@,
        AssetField::SmallText => "small_text"@,
        AssetField::SmallUrl => "small_url"@,
    }
}

impl AssetField {
    /// The JSON key of the field.
    pub fn key(&self) -> (k: &'static str)
        ensures
            k@ == field_key(*self),
    {
        match self {
            AssetField::LargeImage => "large_image",
            AssetField::LargeText => "large_text",
            AssetField::LargeUrl => "large_url",
            AssetField::SmallImage => "small_image",
            AssetField::SmallText => "small_text",
            AssetField::SmallUrl => "small_url",
        }
    }
}

/// The field, if its value is set.
pub open spec fn opt_field(f: AssetField, v: Option<Seq<char>>) -> Seq<(AssetField, Seq<char>)> {
    match v {
        Some(s) => seq![(f, s)],
        None => Seq::empty(),
    }
}

/// The fields of one image: nothing without the image; else the image, then its
/// text and its URL where they are set.
pub open spec fn image_fields(
    image: Option<Seq<char>>,
    text: Option<Seq<char>>,
    url: Option<Seq<char>>,
    fi: AssetField,
    ft: AssetField,
    fu: AssetField,
) -> Seq<(AssetField, Seq<char>)> {
    match image {
        None => Seq::empty(),
        Some(i) => seq![(fi, i)] + opt_field(ft, text) + opt_field(fu, url),
    }
}

/// The fields that the assets object carries on the wire, in order.
pub open spec fn wire_fields(a: AssetsModel) -> Seq<(AssetField, Seq<char>)> {
    image_fields(
        a.large_image,
        a.large_text,
        a.large_url,
        AssetField::LargeImage,
        AssetField::LargeText,
        AssetField::LargeUrl,
    ) + image_fields(
        a.small_image,
        a.small_text,
        a.small_url,
        AssetField::SmallImage,
        AssetField::SmallText,
        AssetField::SmallUrl,
    )
}

/// The value an assets object holds for a field.
pub open spec fn field_value(a: AssetsModel, f: AssetField) -> Option<Seq<char>> {
    match f {
        AssetField::LargeImage => a.large_image,
        AssetField::LargeText => a.large_text,
        AssetField::LargeUrl => a.large_url,
        AssetField::SmallImage => a.small_image,
        AssetField::SmallText => a.small_text,
        AssetField::SmallUrl => a.small_url,
    }
}

/// The image a field belongs to is set.
pub open spec fn image_set(a: AssetsModel, f: AssetField) -> bool {
    match f {
        AssetField::LargeImage | AssetField::LargeText | AssetField::LargeUrl => a.large_image is Some,
        _ => a.small_image is Some,
    }
}

proof fn lemma_image_fields_contains(
    image: Option<Seq<char>>,
    text: Option<Seq<char>>,
    url: Option<Seq<char>>,
    fi: AssetField,
    ft: AssetField,
    fu: AssetField,
    f: AssetField,
    v: Seq<char>,
)
    requires
        fi != ft && fi != fu && ft != fu,
    ensures
        image_fields(image, text, url, fi, ft, fu).contains((f, v)) <==> (image is Some && (
        (f == fi && image == Some(v)) || (f == ft && text == Some(v)) || (f == fu && url == Some(v)))),
{
    let s = image_fields(image, text, url, fi, ft, fu);
    if image is Some {
        let a = seq![(fi, image.unwrap())];
        let b = opt_field(ft, text);
        let c = opt_field(fu, url);
        assert(s == a + b + c);
        if s.contains((f, v)) {
            let k = choose|k: int| 0 <= k < s.len() && s[k] == (f, v);
            if k < 1 {
                assert(s[k] == a[k]);
            } else if k < 1 + b.len() {
                assert(s[k] == b[k - 1]);
            } else {
                assert(s[k] == c[k - 1 - b.len()]);
            }
        }
        if f == fi && image == Some(v) {
            assert(s[0] == (f, v));
        }
        if f == ft && text == Some(v) {
            assert(s[1] == (f, v));
        }
        if f == fu && url == Some(v) {
            assert(s[1 + b.len() as int] == (f, v));
        }
    }
}

/// A field is on the wire exactly when it is set and its image is set: a text
/// or a URL never goes out without its image.
pub proof fn lemma_wire_fields_need_image(a: AssetsModel, f: AssetField, v: Seq<char>)
    ensures
        wire_fields(a).contains((f, v)) <==> (field_value(a, f) == Some(v) && image_set(a, f)),
{
    let l = image_fields(
        a.large_image,
        a.large_text,
        a.large_url,
        AssetField::LargeImage,
        AssetField::LargeText,
        AssetField::LargeUrl,
    );
    let sm = image_fields(
        a.small_image,
        a.small_text,
        a.small_url,
        AssetField::SmallImage,
        AssetField::SmallText,
        AssetField::SmallUrl,
    );
    lemma_image_fields_contains(
        a.large_image,
        a.large_text,
        a.large_url,
        AssetField::LargeImage,
        AssetField::LargeText,
        AssetField::LargeUrl,
        f,
        v,
    );
    lemma_image_fields_contains(
        a.small_image,
        a.small_text,
        a.small_url,
        AssetField::SmallImage,
        AssetField::SmallText,
        AssetField::SmallUrl,
        f,
        v,
    );
    let w = wire_fields(a);
    assert(w == l + sm);
    if w.contains((f, v)) {
        let k = choose|k: int| 0 <= k < w.len() && w[k] == (f, v);
        if k < l.len() {
            assert(l[k] == (f, v));
            assert(l.contains((f, v)));
        } else {
            assert(sm[k - l.len()] == (f, v));
            assert(sm.contains((f, v)));
        }
    }
    if l.contains((f, v)) {
        let k = choose|k: int| 0 <= k < l.len() && l[k] == (f, v);
        assert(w[k] == (f, v));
    }
    if sm.contains((f, v)) {
        let k = choose|k: int| 0 <= k < sm.len() && sm[k] == (f, v);
        assert(w[l.len() as int + k] == (f, v));
    }
}

/// The view of a list of wire fields.
pub open spec fn fields_view(v: Seq<(AssetField, &str)>) -> Seq<(AssetField, Seq<char>)> {
    v.map_values(|p: (AssetField, &str)| (p.0, p.1@))
}

fn push_field<'a>(out: &mut Vec<(AssetField, &'a str)>, f: AssetField, v: &'a Option<String>)
    ensures
        fields_view(final(out)@) == fields_view(old(out)@) + opt_field(f, opt_string_view(*v)),
{
    let ghost before = fields_view(out@);
    if let Some(s) = v {
        out.push((f, s.as_str()));
        assert(fields_view(out@) =~= before + opt_field(f, opt_string_view(*v)));
    } else {
        assert(fields_view(out@) =~= before + opt_field(f, opt_string_view(*v)));
    }
}

fn push_image<'a>(
    out: &mut Vec<(AssetField, &'a str)>,
    image: &'a Option<String>,
    text: &'a Option<String>,
    url: &'a Option<String>,
    fi: AssetField,
    ft: AssetField,
    fu: AssetField,
)
    ensures
        fields_view(final(out)@) == fields_view(old(out)@) + image_fields(
            opt_string_view(*image),
            opt_string_view(*text),
            opt_string_view(*url),
            fi,
            ft,
            fu,
        ),
{
    let ghost before = fields_view(out@);
    if image.is_some() {
        push_field(out, fi, image);
        push_field(out, ft, text);
        push_field(out, fu, url);
        assert(fields_view(out@) =~= before + image_fields(
            opt_string_view(*image),
            opt_string_view(*text),
            opt_string_view(*url),
            fi,
            ft,
            fu,
        ));
    } else {
        assert(fields_view(out@) =~= before + image_fields(
            opt_string_view(*image),
            opt_string_view(*text),
            opt_string_view(*url),
            fi,
            ft,
            fu,
        ));
    }
}

impl AssetsPayload {
    /// The fields this object carries on the wire, in order. A text or a URL
    /// whose image is missing is left out.
    pub fn wire_fields(&self) -> (res: Vec<(AssetField, &str)>)
        ensures
            fields_view(res@) == wire_fields(self@),
    {
        let mut out: Vec<(AssetField, &str)> = Vec::new();
        assert(fields_view(out@) =~= Seq::empty());
        push_image(
            &mut out,
            &self.large_image,
            &self.large_text,
            &self.large_url,
            AssetField::LargeImage,
            AssetField::LargeText,
            AssetField::LargeUrl,
        );
        push_image(
            &mut out,
            &self.small_image,
            &self.small_text,
            &self.small_url,
            AssetField::SmallImage,
            AssetField::SmallText,
            AssetField::SmallUrl,
        );
        assert(fields_view(out@) =~= wire_fields(self@));
        out
    }

    /// The key for the large image.
    pub fn large_image(&self) -> (r: Option<&str>)
        ensures
            opt_str_view(r) == self@.large_image,
    {
        opt_as_str(&self.large_image)
    }

    /// The URL for the large image.
    pub fn large_url(&self) -> (r: Option<&str>)
        ensures
            opt_str_view(r) == self@.large_url,
    {
        opt_as_str(&self.large_url)
    }

    /// The hover text for the large image.
    pub fn large_text(&self) -> (r: Option<&str>)
        ensures
            opt_str_view(r) == self@.large_text,
    {
        opt_as_str(&self.large_text)
    }

    /// The key for the small image.
    pub fn small_image(&self) -> (r: Option<&str>)
        ensures
            opt_str_view(r) == self@.small_image,
    {
        opt_as_str(&self.small_image)
    }

    /// The URL for the small image.
    pub fn small_url(&self) -> (r: Option<&str>)
        ensures
            opt_str_view(r) == self@.small_url,
    {
        opt_as_str(&self.small_url)
    }

    /// The hover text for the small image.
    pub fn small_text(&self) -> (r: Option<&str>)
        ensures
            opt_str_view(r) == self@.small_text,
    {
        opt_as_str(&self.small_text)
    }
}

/// A button of the activity.
#[derive(Debug, Clone)]
pub struct ButtonPayload {
    pub label: String,
    pub url: String,
}

impl View for ButtonPayload {
    type V = (Seq<char>, Seq<char>);

    open spec fn view(&self) -> (Seq<char>, Seq<char>) {
        (self.label@, self.url@)
    }
}

impl ButtonPayload {
    /// The label for the button.
    pub fn label(&self) -> (r: &str)
        ensures
            r@ == self.label@,
    {
        self.label.as_str()
    }

    /// The URL the button leads to.
    pub fn url(&self) -> (r: &str)
        ensures
            r@ == self.url@,
    {
        self.url.as_str()
    }
}

/// The timestamps (seconds since the Unix epoch) of an activity.
#[derive(Debug, Clone, Copy)]
pub struct TimestampPayload {
    pub start: u64,
    pub end: Option<u64>,
}

impl TimestampPayload {
    /// When the activity started.
    pub fn start(&self) -> (r: u64)
        ensures
            r == self.start,
    {
        self.start
    }

    /// When the activity ends, if it has a countdown.
    pub fn end(&self) -> (r: Option<u64>)
        ensures
            r == self.end,
    {
        self.end
    }
}

/// An activity as it has been sent.
#[derive(Debug, Clone)]
pub struct ActivityPayload {
    pub name: Option<String>,
    pub activity_type: Option<ActivityType>,
    pub created_at: u64,
    pub instance: Option<bool>,
    pub status_display_type: Option<StatusDisplayType>,
    pub details: Option<String>,
    pub details_url: Option<String>,
    pub state: Option<String>,
    pub state_url: Option<String>,
    pub timestamps: TimestampPayload,
    pub assets: Option<AssetsPayload>,
    pub buttons: Option<Vec<ButtonPayload>>,
}

/// The end of an activity whose countdown starts at `now`: `None` without one.
pub open spec fn end_timestamp(model: ActivitySpecModel, now: u64) -> Option<u64> {
    match model.duration {
        Some(d) => Some((now + duration_secs(d)) as u64),
        None => None,
    }
}

/// The end of the countdown fits a `u64`.
pub open spec fn end_fits(model: ActivitySpecModel, now: u64) -> bool {
    model.duration matches Some(d) ==> now + duration_secs(d) <= u64::MAX
}

/// `p` is the payload of the activity `m`, created at `now` in a session that
/// started at `session_start`.
pub open spec fn payload_of(p: ActivityPayload, m: ActivitySpecModel, session_start: u64, now: u64) -> bool {
    &&& opt_string_view(p.name) == m.name
    &&& p.activity_type == m.activity_type
    &&& p.created_at == now
    &&& p.instance == m.instance
    &&& p.status_display_type == m.status_display_type
    &&& opt_string_view(p.details) == m.details
    &&& opt_string_view(p.details_url) == m.details_url
    &&& opt_string_view(p.state) == m.state
    &&& opt_string_view(p.state_url) == m.state_url
    &&& p.timestamps.start == session_start
    &&& p.timestamps.end == end_timestamp(m, now)
    &&& opt_assets_view(p.assets) == m.assets
    &&& opt_buttons_view(p.buttons) == m.buttons
}

impl ActivityPayload {
    /// The payload of an activity created at `now`, in a session that started
    /// at `session_start`: the end of a countdown lies `duration` after `now`.
    pub fn create_at(value: ActivitySpec, session_start: u64, now: u64) -> (p: ActivityPayload)
        requires
            end_fits(value@, now),
        ensures
            payload_of(p, value@, session_start, now),
    {
        proof {
            lemma_activity_view(&value);
        }
        let end = match &value.duration {
            Some(d) => {
                let secs = duration_as_secs(d);
                Some(now + secs)
            },
            None => None,
        };
        ActivityPayload {
            name: value.name,
            activity_type: value.activity_type,
            created_at: now,
            instance: value.instance,
            status_display_type: value.status_display_type,
            details: value.details,
            details_url: value.details_url,
            state: value.state,
            state_url: value.state_url,
            timestamps: TimestampPayload { start: session_start, end },
            assets: value.assets,
            buttons: value.buttons,
        }
    }

    /// The payload of an activity created at the clock reading `now`, in a
    /// session that started at `session_start`; refused when the end of the
    /// countdown does not fit a `u64`.
    pub fn create_checked(value: ActivitySpec, session_start: u64, now: u64) -> (res: Result<
        ActivityPayload,
        TimestampError,
    >)
        ensures
            res is Err <==> !end_fits(value@, now),
            res matches Err(e) ==> e is EndOverflow,
            res matches Ok(p) ==> payload_of(p, value@, session_start, now),
    {
        proof {
            lemma_activity_view(&value);
        }
        match &value.duration {
            Some(d) => {
                let secs = duration_as_secs(d);
                if secs > u64::MAX - now {
                    return Err(TimestampError::EndOverflow);
                }
            },
            None => {},
        }
        Ok(ActivityPayload::create_at(value, session_start, now))
    }

    /// The payload of an activity created now, in a session that started at
    /// `session_start`: the clock is read, then `create_checked` does the rest.
    /// Fails when the clock is before the Unix epoch, or when the end of the
    /// countdown does not fit a `u64`.
    pub fn create(value: ActivitySpec, session_start: u64) -> (res: Result<ActivityPayload, TimestampError>)
        ensures
            res matches Ok(p) ==> end_fits(value@, p.created_at) && payload_of(
                p,
                value@,
                session_start,
                p.created_at,
            ),
            res matches Err(e) ==> (e is EndOverflow ==> exists|t: u64| !end_fits(value@, t)),
    {
        let now = get_current_timestamp()?;
        let res = ActivityPayload::create_checked(value, session_start, now);
        assert(res is Err ==> !end_fits(value@, now));
        res
    }

    /// The name of the activity.
    pub fn name(&self) -> (r: Option<&str>)
        ensures
            opt_str_view(r) == opt_string_view(self.name),
    {
        opt_as_str(&self.name)
    }

    /// The type of the activity.
    pub fn activity_type(&self) -> (r: Option<ActivityType>)
        ensures
            r == self.activity_type,
    {
        self.activity_type
    }

    /// When the activity was created.
    pub fn created_at(&self) -> (r: u64)
        ensures
            r == self.created_at,
    {
        self.created_at
    }

    /// Whether the activity is an instance.
    pub fn instance(&self) -> (r: Option<bool>)
        ensures
            r == self.instance,
    {
        self.instance
    }

    /// Which element the activity shows as its status.
    pub fn status_display_type(&self) -> (r: Option<StatusDisplayType>)
        ensures
            r == self.status_display_type,
    {
        self.status_display_type
    }

    /// The details (top text) of the activity.
    pub fn details(&self) -> (r: Option<&str>)
        ensures
            opt_str_view(r) == opt_string_view(self.details),
    {
        opt_as_str(&self.details)
    }

    /// The URL the details lead to.
    pub fn details_url(&self) -> (r: Option<&str>)
        ensures
            opt_str_view(r) == opt_string_view(self.details_url),
    {
        opt_as_str(&self.details_url)
    }

    /// The state (usually the bottom text) of the activity.
    pub fn state(&self) -> (r: Option<&str>)
        ensures
            opt_str_view(r) == opt_string_view(self.state),
    {
        opt_as_str(&self.state)
    }

    /// The URL the state leads to.
    pub fn state_url(&self) -> (r: Option<&str>)
        ensures
            opt_str_view(r) == opt_string_view(self.state_url),
    {
        opt_as_str(&self.state_url)
    }

    /// The timestamps of the activity.
    pub fn timestamps(&self) -> (r: &TimestampPayload)
        ensures
            *r == self.timestamps,
    {
        &self.timestamps
    }

    /// The assets of the activity, if any.
    pub fn assets(&self) -> (r: Option<&AssetsPayload>)
        ensures
            r matches Some(a) ==> self.assets == Some(*a),
            r is None <==> self.assets is None,
    {
        self.assets.as_ref()
    }

    /// The buttons of the activity, if any.
    pub fn buttons(&self) -> (r: Option<&Vec<ButtonPayload>>)
        ensures
            r matches Some(b) ==> self.buttons == Some(*b),
            r is None <==> self.buttons is None,
    {
        self.buttons.as_ref()
    }
}

} // verus!
