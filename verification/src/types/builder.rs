//! Building an activity step by step, and checking it before it is sent.

use std::time::Duration;

use vstd::prelude::*;

use crate::errors::{ActivitySpecBuildError, BuildErrorModel};
use crate::types::activity::{
    buttons_view, empty_activity_model, lemma_activity_view, ActivitySpec, ActivitySpecModel, ActivityType,
    StatusDisplayType,
};
use crate::types::payloads::{
    field_value, lemma_wire_fields_need_image, wire_fields, AssetField, AssetsModel, AssetsPayload,
    ButtonPayload,
};
use crate::utils::{filter_none_string, filtered_text, opt_string_view};

verus! {

/// The entry point of the builder.
pub struct Activity;

/// The abstract state of a builder.
pub struct BuilderModel {
    pub name: Option<Seq<char>>,
    pub activity_type: Option<ActivityType>,
    pub status_display_type: Option<StatusDisplayType>,
    pub instance: Option<bool>,
    pub details: Option<Seq<char>>,
    pub details_url: Option<Seq<char>>,
    pub state: Option<Seq<char>>,
    pub state_url: Option<Seq<char>>,
    pub duration: Option<Duration>,
    pub large_image: Option<Seq<char>>,
    pub large_text: Option<Seq<char>>,
    pub large_url: Option<Seq<char>>,
    pub small_image: Option<Seq<char>>,
    pub small_text: Option<Seq<char>>,
    pub small_url: Option<Seq<char>>,
    pub buttons: Option<Seq<(Seq<char>, Seq<char>)>>,
}

/// A builder for a Rich Presence activity.
pub struct ActivityBuilder {
    name: Option<String>,
    activity_type: Option<ActivityType>,
    status_display_type: Option<StatusDisplayType>,
    instance: Option<bool>,
    details: Option<String>,
    details_url: Option<String>,
    state: Option<String>,
    state_url: Option<String>,
    duration: Option<Duration>,
    large_image: Option<String>,
    large_text: Option<String>,
    large_url: Option<String>,
    small_image: Option<String>,
    small_text: Option<String>,
    small_url: Option<String>,
    buttons: Option<Vec<ButtonPayload>>,
}

/// No two buttons share a label.
pub open spec fn labels_distinct(pairs: Seq<(Seq<char>, Seq<char>)>) -> bool {
    forall|i: int, j: int| 0 <= i < j < pairs.len() ==> #[trigger] pairs[i].0 != #[trigger] pairs[j].0
}

/// Some button carries this label.
pub open spec fn has_label(pairs: Seq<(Seq<char>, Seq<char>)>, label: Seq<char>) -> bool {
    exists|i: int| 0 <= i < pairs.len() && #[trigger] pairs[i].0 == label
}

/// The position of the button with this label.
pub open spec fn label_index(pairs: Seq<(Seq<char>, Seq<char>)>, label: Seq<char>) -> int {
    choose|i: int| 0 <= i < pairs.len() && #[trigger] pairs[i].0 == label
}

/// The buttons after adding one: a button with the same label gets the new URL
/// in its place; otherwise the new button goes last.
pub open spec fn spec_add_button(
    pairs: Seq<(Seq<char>, Seq<char>)>,
    label: Seq<char>,
    url: Seq<char>,
) -> Seq<(Seq<char>, Seq<char>)> {
    if has_label(pairs, label) {
        pairs.update(label_index(pairs, label), (label, url))
    } else {
        pairs.push((label, url))
    }
}

/// The URL of the button with this label, if there is one.
pub open spec fn button_url(pairs: Seq<(Seq<char>, Seq<char>)>, label: Seq<char>) -> Option<Seq<char>> {
    if has_label(pairs, label) {
        Some(pairs[label_index(pairs, label)].1)
    } else {
        None
    }
}

/// The buttons of a builder, as a list (none yet is the empty list).
pub open spec fn buttons_or_empty(b: Option<Seq<(Seq<char>, Seq<char>)>>) -> Seq<(Seq<char>, Seq<char>)> {
    match b {
        Some(s) => s,
        None => Seq::empty(),
    }
}

/// A fresh builder: nothing is set.
pub open spec fn empty_builder_model() -> BuilderModel {
    BuilderModel {
        name: None,
        activity_type: None,
        status_display_type: None,
        instance: None,
        details: None,
        details_url: None,
        state: None,
        state_url: None,
        duration: None,
        large_image: None,
        large_text: None,
        large_url: None,
        small_image: None,
        small_text: None,
        small_url: None,
        buttons: None,
    }
}

/// Why a builder in this state cannot be built, if it cannot. The checks run in
/// this order: image texts and URLs without their image, a status display
/// pointing to an unset element, an element URL without its element.
pub open spec fn build_error(m: BuilderModel) -> Option<BuildErrorModel> {
    if (m.large_text is Some || m.large_url is Some) && m.large_image is None {
        Some(BuildErrorModel::ImageAssetsTooEarly)
    } else if (m.small_text is Some || m.small_url is Some) && m.small_image is None {
        Some(BuildErrorModel::ImageAssetsTooEarly)
    } else if m.status_display_type == Some(StatusDisplayType::Details) && m.details is None {
        Some(BuildErrorModel::StatusDisplayElementMissing("details"@))
    } else if m.status_display_type == Some(StatusDisplayType::State) && m.state is None {
        Some(BuildErrorModel::StatusDisplayElementMissing("state"@))
    } else if m.details_url is Some && m.details is None {
        Some(BuildErrorModel::ElementURLProvidedEarly("details"@))
    } else if m.state_url is Some && m.state is None {
        Some(BuildErrorModel::ElementURLProvidedEarly("state"@))
    } else {
        None
    }
}

/// The activity a builder in this state builds.
pub open spec fn built_model(m: BuilderModel) -> ActivitySpecModel {
    ActivitySpecModel {
        name: m.name,
        activity_type: m.activity_type,
        instance: m.instance,
        status_display_type: m.status_display_type,
        details: m.details,
        details_url: m.details_url,
        state: m.state,
        state_url: m.state_url,
        assets: Some(
            AssetsModel {
                large_image: m.large_image,
                large_url: m.large_url,
                large_text: m.large_text,
                small_image: m.small_image,
                small_text: m.small_text,
                small_url: m.small_url,
            },
        ),
        buttons: m.buttons,
        duration: m.duration,
    }
}

/// Adding a button behaves as a map from labels to URLs: the label now leads to
/// the new URL, every other label to the URL it had; labels stay distinct; the
/// other buttons keep their places; and the list grows only for a new label.
pub proof fn lemma_add_button_is_map_insert(
    pairs: Seq<(Seq<char>, Seq<char>)>,
    label: Seq<char>,
    url: Seq<char>,
    k: Seq<char>,
)
    requires
        labels_distinct(pairs),
    ensures
        labels_distinct(spec_add_button(pairs, label, url)),
        button_url(spec_add_button(pairs, label, url), k) == if k == label {
            Some(url)
        } else {
            button_url(pairs, k)
        },
        forall|i: int|
            0 <= i < pairs.len() && pairs[i].0 != label ==> #[trigger] spec_add_button(
                pairs,
                label,
                url,
            )[i] == pairs[i],
        has_label(pairs, label) ==> spec_add_button(pairs, label, url).len() == pairs.len(),
        !has_label(pairs, label) ==> spec_add_button(pairs, label, url).len() == pairs.len() + 1,
{
    let r = spec_add_button(pairs, label, url);
    if has_label(pairs, label) {
        let idx = label_index(pairs, label);
        assert(r[idx].0 == label);
        assert forall|x: int, y: int| 0 <= x < y < r.len() implies #[trigger] r[x].0
            != #[trigger] r[y].0 by {
            if x == idx {
                assert(pairs[y].0 != pairs[idx].0);
            } else if y == idx {
                assert(pairs[x].0 != pairs[idx].0);
            } else {
                assert(pairs[x].0 != pairs[y].0);
            }
        }
        if k == label {
            assert(has_label(r, k));
            let j = label_index(r, k);
            if j != idx {
                if j < idx {
                    assert(r[j].0 != r[idx].0);
                } else {
                    assert(r[idx].0 != r[j].0);
                }
            }
        } else {
            if has_label(pairs, k) {
                let j = label_index(pairs, k);
                assert(j != idx);
                assert(r[j].0 == k);
                assert(has_label(r, k));
                let j2 = label_index(r, k);
                if j2 != j {
                    if j2 < j {
                        assert(r[j2].0 != r[j].0);
                    } else {
                        assert(r[j].0 != r[j2].0);
                    }
                }
            } else {
                if has_label(r, k) {
                    let j2 = label_index(r, k);
                    assert(j2 != idx);
                    assert(pairs[j2].0 == k);
                }
            }
        }
    } else {
        let n = pairs.len() as int;
        assert(r[n].0 == label);
        assert forall|x: int, y: int| 0 <= x < y < r.len() implies #[trigger] r[x].0
            != #[trigger] r[y].0 by {
            if y == n {
                assert(pairs[x].0 != label);
            } else {
                assert(pairs[x].0 != pairs[y].0);
            }
        }
        if k == label {
            assert(has_label(r, k));
            let j = label_index(r, k);
            if j != n {
                assert(pairs[j].0 == label);
            }
        } else {
            if has_label(pairs, k) {
                let j = label_index(pairs, k);
                assert(r[j].0 == k);
                assert(has_label(r, k));
                let j2 = label_index(r, k);
                assert(j2 != n);
                if j2 != j {
                    if j2 < j {
                        assert(pairs[j2].0 != pairs[j].0);
                    } else {
                        assert(pairs[j].0 != pairs[j2].0);
                    }
                }
            } else {
                if has_label(r, k) {
                    let j2 = label_index(r, k);
                    assert(j2 != n);
                    assert(pairs[j2].0 == k);
                }
            }
        }
    }
}

/// The buttons after a sequence of `add_button` calls, in order.
pub open spec fn add_buttons(
    pairs: Seq<(Seq<char>, Seq<char>)>,
    calls: Seq<(Seq<char>, Seq<char>)>,
) -> Seq<(Seq<char>, Seq<char>)>
    decreases calls.len(),
{
    if calls.len() == 0 {
        pairs
    } else {
        spec_add_button(add_buttons(pairs, calls.drop_last()), calls.last().0, calls.last().1)
    }
}

/// The URL of the last call that added this label, if any did.
pub open spec fn last_url(calls: Seq<(Seq<char>, Seq<char>)>, label: Seq<char>) -> Option<Seq<char>>
    decreases calls.len(),
{
    if calls.len() == 0 {
        None
    } else if calls.last().0 == label {
        Some(calls.last().1)
    } else {
        last_url(calls.drop_last(), label)
    }
}

/// With distinct labels, a pair is among the buttons exactly when its label
/// leads to its URL.
pub proof fn lemma_contains_iff_url(pairs: Seq<(Seq<char>, Seq<char>)>, label: Seq<char>, url: Seq<char>)
    requires
        labels_distinct(pairs),
    ensures
        pairs.contains((label, url)) <==> button_url(pairs, label) == Some(url),
{
    if pairs.contains((label, url)) {
        let i = choose|i: int| 0 <= i < pairs.len() && pairs[i] == (label, url);
        assert(pairs[i].0 == label);
        assert(has_label(pairs, label));
        let j = label_index(pairs, label);
        if j != i {
            if j < i {
                assert(pairs[j].0 != pairs[i].0);
            } else {
                assert(pairs[i].0 != pairs[j].0);
            }
        }
    }
    if button_url(pairs, label) == Some(url) {
        let j = label_index(pairs, label);
        assert(pairs[j] == (label, url));
    }
}

/// After any sequence of `add_button` calls on a builder without buttons, the
/// labels are distinct and each label added leads to the URL of the last call
/// that added it: the buttons are exactly the pairs (label, last URL).
pub proof fn lemma_buttons_after_calls(
    calls: Seq<(Seq<char>, Seq<char>)>,
    label: Seq<char>,
    url: Seq<char>,
)
    ensures
        labels_distinct(add_buttons(Seq::empty(), calls)),
        button_url(add_buttons(Seq::empty(), calls), label) == last_url(calls, label),
        add_buttons(Seq::empty(), calls).contains((label, url)) <==> last_url(calls, label) == Some(url),
    decreases calls.len(),
{
    let empty = Seq::<(Seq<char>, Seq<char>)>::empty();
    if calls.len() == 0 {
        assert(!has_label(empty, label));
    } else {
        lemma_buttons_after_calls(calls.drop_last(), label, url);
        let before = add_buttons(empty, calls.drop_last());
        lemma_add_button_is_map_insert(before, calls.last().0, calls.last().1, label);
    }
    lemma_contains_iff_url(add_buttons(empty, calls), label, url);
}

/// No rule of the builder is broken: every image text or URL has its image,
/// the status display points to a set element, and every element URL has its
/// element.
pub open spec fn follows_rules(m: BuilderModel) -> bool {
    &&& (m.large_text is Some || m.large_url is Some) ==> m.large_image is Some
    &&& (m.small_text is Some || m.small_url is Some) ==> m.small_image is Some
    &&& m.status_display_type == Some(StatusDisplayType::Details) ==> m.details is Some
    &&& m.status_display_type == Some(StatusDisplayType::State) ==> m.state is Some
    &&& m.details_url is Some ==> m.details is Some
    &&& m.state_url is Some ==> m.state is Some
}

/// A builder is refused exactly when it breaks a rule, and each error names a
/// rule that is broken, for the element it names: a URL error for the details
/// means the details URL is set without the details, and likewise for the
/// state; a status display error means the status display points to that
/// unset element; an image error means some image's text or URL lacks its image.
pub proof fn lemma_build_error_names_broken_rule(m: BuilderModel)
    ensures
        build_error(m) is None <==> follows_rules(m),
        build_error(m) == Some(BuildErrorModel::ElementURLProvidedEarly("details"@)) ==> m.details_url is Some
            && m.details is None,
        build_error(m) == Some(BuildErrorModel::ElementURLProvidedEarly("state"@)) ==> m.state_url is Some
            && m.state is None,
        build_error(m) == Some(BuildErrorModel::StatusDisplayElementMissing("details"@)) ==> m.status_display_type
            == Some(StatusDisplayType::Details) && m.details is None,
        build_error(m) == Some(BuildErrorModel::StatusDisplayElementMissing("state"@)) ==> m.status_display_type
            == Some(StatusDisplayType::State) && m.state is None,
        build_error(m) == Some(BuildErrorModel::ImageAssetsTooEarly) ==> ((m.large_text is Some
            || m.large_url is Some) && m.large_image is None) || ((m.small_text is Some
            || m.small_url is Some) && m.small_image is None),
{
    reveal_strlit("details");
    reveal_strlit("state");
    assert("details"@.len() == 7);
    assert("state"@.len() == 5);
    assert("details"@ != "state"@);
}

/// A built activity's assets go out whole: since a text or a URL is only
/// accepted with its image, every field set on the builder is on the wire.
pub proof fn lemma_built_assets_fully_sent(m: BuilderModel, f: AssetField, v: Seq<char>)
    requires
        build_error(m) is None,
    ensures
        built_model(m).assets matches Some(a) && (field_value(a, f) == Some(v) <==> wire_fields(
            a,
        ).contains((f, v))),
{
    let a = built_model(m).assets.unwrap();
    lemma_wire_fields_need_image(a, f, v);
}

impl View for ActivityBuilder {
    type V = BuilderModel;

    closed spec fn view(&self) -> BuilderModel {
        BuilderModel {
            name: opt_string_view(self.name),
            activity_type: self.activity_type,
            status_display_type: self.status_display_type,
            instance: self.instance,
            details: opt_string_view(self.details),
            details_url: opt_string_view(self.details_url),
            state: opt_string_view(self.state),
            state_url: opt_string_view(self.state_url),
            duration: self.duration,
            large_image: opt_string_view(self.large_image),
            large_text: opt_string_view(self.large_text),
            large_url: opt_string_view(self.large_url),
            small_image: opt_string_view(self.small_image),
            small_text: opt_string_view(self.small_text),
            small_url: opt_string_view(self.small_url),
            buttons: match self.buttons {
                Some(v) => Some(buttons_view(v@)),
                None => None,
            },
        }
    }
}

impl ActivityBuilder {
    /// The labels of the buttons are distinct.
    #[verifier::type_invariant]
    closed spec fn buttons_wf(self) -> bool {
        self.buttons matches Some(v) ==> labels_distinct(buttons_view(v@))
    }
}

impl ActivityBuilder {
    /// Name of the activity. An empty text unsets it.
    pub fn name(self, text: &str) -> (r: Self)
        ensures
            r@ == (BuilderModel { name: filtered_text(text@), ..self@ }),
    {
        let mut b = self;
        proof {
            use_type_invariant(&b);
        }
        b.name = filter_none_string(text);
        b
    }

    /// Top text of the activity. An empty text unsets it.
    pub fn details(self, text: &str) -> (r: Self)
        ensures
            r@ == (BuilderModel { details: filtered_text(text@), ..self@ }),
    {
        let mut b = self;
        proof {
            use_type_invariant(&b);
        }
        b.details = filter_none_string(text);
        b
    }

    /// URL for the top text of the activity. An empty text unsets it.
    pub fn details_url(self, url: &str) -> (r: Self)
        ensures
            r@ == (BuilderModel { details_url: filtered_text(url@), ..self@ }),
    {
        let mut b = self;
        proof {
            use_type_invariant(&b);
        }
        b.details_url = filter_none_string(url);
        b
    }

    /// Bottom text of the activity. An empty text unsets it.
    pub fn state(self, text: &str) -> (r: Self)
        ensures
            r@ == (BuilderModel { state: filtered_text(text@), ..self@ }),
    {
        let mut b = self;
        proof {
            use_type_invariant(&b);
        }
        b.state = filter_none_string(text);
        b
    }

    /// URL for the bottom text of the activity. An empty text unsets it.
    pub fn state_url(self, url: &str) -> (r: Self)
        ensures
            r@ == (BuilderModel { state_url: filtered_text(url@), ..self@ }),
    {
        let mut b = self;
        proof {
            use_type_invariant(&b);
        }
        b.state_url = filter_none_string(url);
        b
    }

    /// Large image of the activity (e.g. a game icon). An empty text unsets it.
    pub fn large_image(self, key: &str) -> (r: Self)
        ensures
            r@ == (BuilderModel { large_image: filtered_text(key@), ..self@ }),
    {
        let mut b = self;
        proof {
            use_type_invariant(&b);
        }
        b.large_image = filter_none_string(key);
        b
    }

    /// Hover text for the large image. An empty text unsets it.
    pub fn large_text(self, text: &str) -> (r: Self)
        ensures
            r@ == (BuilderModel { large_text: filtered_text(text@), ..self@ }),
    {
        let mut b = self;
        proof {
            use_type_invariant(&b);
        }
        b.large_text = filter_none_string(text);
        b
    }

    /// URL for the large image. An empty text unsets it.
    pub fn large_url(self, url: &str) -> (r: Self)
        ensures
            r@ == (BuilderModel { large_url: filtered_text(url@), ..self@ }),
    {
        let mut b = self;
        proof {
            use_type_invariant(&b);
        }
        b.large_url = filter_none_string(url);
        b
    }

    /// Small image of the activity. An empty text unsets it.
    pub fn small_image(self, key: &str) -> (r: Self)
        ensures
            r@ == (BuilderModel { small_image: filtered_text(key@), ..self@ }),
    {
        let mut b = self;
        proof {
            use_type_invariant(&b);
        }
        b.small_image = filter_none_string(key);
        b
    }

    /// Hover text for the small image. An empty text unsets it.
    pub fn small_text(self, text: &str) -> (r: Self)
        ensures
            r@ == (BuilderModel { small_text: filtered_text(text@), ..self@ }),
    {
        let mut b = self;
        proof {
            use_type_invariant(&b);
        }
        b.small_text = filter_none_string(text);
        b
    }

    /// URL for the small image. An empty text unsets it.
    pub fn small_url(self, url: &str) -> (r: Self)
        ensures
            r@ == (BuilderModel { small_url: filtered_text(url@), ..self@ }),
    {
        let mut b = self;
        proof {
            use_type_invariant(&b);
        }
        b.small_url = filter_none_string(url);
        b
    }

    /// The type of the activity.
    pub fn activity_type(self, activity_type: ActivityType) -> (r: Self)
        ensures
            r@ == (BuilderModel { activity_type: Some(activity_type), ..self@ }),
    {
        let mut b = self;
        proof {
            use_type_invariant(&b);
        }
        b.activity_type = Some(activity_type);
        b
    }

    /// Marks the activity as an instance.
    pub fn set_as_instance(self) -> (r: Self)
        ensures
            r@ == (BuilderModel { instance: Some(true), ..self@ }),
    {
        let mut b = self;
        proof {
            use_type_invariant(&b);
        }
        b.instance = Some(true);
        b
    }

    /// Which element the member list shows as the status.
    pub fn status_display_type(self, status_display_type: StatusDisplayType) -> (r: Self)
        ensures
            r@ == (BuilderModel { status_display_type: Some(status_display_type), ..self@ }),
    {
        let mut b = self;
        proof {
            use_type_invariant(&b);
        }
        b.status_display_type = Some(status_display_type);
        b
    }

    /// The countdown of the activity.
    pub fn duration(self, duration: Duration) -> (r: Self)
        ensures
            r@ == (BuilderModel { duration: Some(duration), ..self@ }),
    {
        let mut b = self;
        proof {
            use_type_invariant(&b);
        }
        b.duration = Some(duration);
        b
    }
}

/// The position of the button with this label, if any.
fn find_label(v: &Vec<ButtonPayload>, label: &String) -> (r: Option<usize>)
    ensures
        r matches Some(i) ==> i < v@.len() && v@[i as int].label@ == label@,
        r is None ==> forall|i: int| 0 <= i < v@.len() ==> v@[i].label@ != label@,
{
    let mut i: usize = 0;
    while i < v.len()
        invariant
            i <= v@.len(),
            forall|j: int| 0 <= j < i ==> v@[j].label@ != label@,
        decreases v@.len() - i,
    {
        if v[i].label == *label {
            return Some(i);
        }
        i = i + 1;
    }
    None
}

impl Activity {
    /// A new builder, with nothing set.
    pub fn new() -> (b: ActivityBuilder)
        ensures
            b@ == empty_builder_model(),
    {
        ActivityBuilder {
            name: None,
            activity_type: None,
            status_display_type: None,
            instance: None,
            details: None,
            details_url: None,
            state: None,
            state_url: None,
            duration: None,
            large_image: None,
            large_text: None,
            large_url: None,
            small_image: None,
            small_text: None,
            small_url: None,
            buttons: None,
        }
    }

    /// An empty but usable activity: Discord then shows only the application's
    /// name and the elapsed time. The same as `ActivitySpec::default`.
    pub fn empty_spec() -> (a: ActivitySpec)
        ensures
            a@ == empty_activity_model(),
    {
        ActivitySpec::default()
    }
}

impl ActivityBuilder {
    /// Adds a button. A button with the same label keeps its place and takes the
    /// new URL; otherwise the button goes after the others.
    pub fn add_button(self, label: &str, url: &str) -> (r: Self)
        ensures
            r@ == (BuilderModel {
                buttons: Some(spec_add_button(buttons_or_empty(self@.buttons), label@, url@)),
                ..self@
            }),
            labels_distinct(buttons_or_empty(r@.buttons)),
    {
        let mut b = self;
        proof {
            use_type_invariant(&b);
        }
        let label_s = label.to_owned();
        let url_s = url.to_owned();
        let mut taken: Option<Vec<ButtonPayload>> = None;
        std::mem::swap(&mut taken, &mut b.buttons);
        let mut v: Vec<ButtonPayload> = match taken {
            Some(v) => v,
            None => Vec::new(),
        };
        let ghost old_pairs = buttons_view(v@);
        assert(old_pairs == buttons_or_empty(self@.buttons));
        let ghost new_pair = (label@, url@);
        match find_label(&v, &label_s) {
            Some(i) => {
                proof {
                    assert(old_pairs[i as int].0 == label@);
                    assert(has_label(old_pairs, label@));
                    let j = label_index(old_pairs, label@);
                    assert(old_pairs[j].0 == label@);
                    if j != i {
                        if j < i {
                            assert(old_pairs[j].0 != old_pairs[i as int].0);
                        } else {
                            assert(old_pairs[i as int].0 != old_pairs[j].0);
                        }
                    }
                }
                v.set(i, ButtonPayload { label: label_s, url: url_s });
                proof {
                    assert(buttons_view(v@) =~= old_pairs.update(i as int, new_pair));
                    let np = buttons_view(v@);
                    assert forall|x: int, y: int| 0 <= x < y < np.len() implies #[trigger] np[x].0
                        != #[trigger] np[y].0 by {
                        if x == i {
                            assert(old_pairs[y].0 != old_pairs[i as int].0);
                        } else if y == i {
                            assert(old_pairs[x].0 != old_pairs[i as int].0);
                        } else {
                            assert(old_pairs[x].0 != old_pairs[y].0);
                        }
                    }
                }
            },
            None => {
                v.push(ButtonPayload { label: label_s, url: url_s });
                proof {
                    assert(!has_label(old_pairs, label@));
                    assert(buttons_view(v@) =~= old_pairs.push(new_pair));
                    let np = buttons_view(v@);
                    assert forall|x: int, y: int| 0 <= x < y < np.len() implies #[trigger] np[x].0
                        != #[trigger] np[y].0 by {
                        if y == old_pairs.len() {
                            assert(old_pairs[x].0 != label@);
                        } else {
                            assert(old_pairs[x].0 != old_pairs[y].0);
                        }
                    }
                }
            },
        }
        b.buttons = Some(v);
        b
    }

    /// Checks the builder and turns it into an activity. Refused are: an image's
    /// text or URL without the image, a status display pointing to unset details
    /// or state, and a details or state URL without its text.
    pub fn build(self) -> (res: Result<ActivitySpec, ActivitySpecBuildError>)
        ensures
            res is Err <==> build_error(self@) is Some,
            res matches Err(e) ==> build_error(self@) == Some(e@),
            res matches Ok(a) ==> a@ == built_model(self@),
    {
        if (self.large_text.is_some() || self.large_url.is_some()) && self.large_image.is_none() {
            return Err(ActivitySpecBuildError::ImageAssetsTooEarly);
        }
        if (self.small_text.is_some() || self.small_url.is_some()) && self.small_image.is_none() {
            return Err(ActivitySpecBuildError::ImageAssetsTooEarly);
        }
        let details_set = self.details.is_some();
        let state_set = self.state.is_some();
        match self.status_display_type {
            Some(StatusDisplayType::Details) => {
                if !details_set {
                    return Err(ActivitySpecBuildError::StatusDisplayElementMissing("details"));
                }
            },
            Some(StatusDisplayType::State) => {
                if !state_set {
                    return Err(ActivitySpecBuildError::StatusDisplayElementMissing("state"));
                }
            },
            _ => {},
        }
        if self.details_url.is_some() && !details_set {
            return Err(ActivitySpecBuildError::ElementURLProvidedEarly("details"));
        }
        if self.state_url.is_some() && !state_set {
            return Err(ActivitySpecBuildError::ElementURLProvidedEarly("state"));
        }
        let a = ActivitySpec {
            name: self.name,
            activity_type: self.activity_type,
            status_display_type: self.status_display_type,
            details: self.details,
            details_url: self.details_url,
            state: self.state,
            state_url: self.state_url,
            instance: self.instance,
            assets: Some(
                AssetsPayload {
                    large_image: self.large_image,
                    large_url: self.large_url,
                    large_text: self.large_text,
                    small_image: self.small_image,
                    small_text: self.small_text,
                    small_url: self.small_url,
                },
            ),
            buttons: self.buttons,
            duration: self.duration,
        };
        proof {
            lemma_activity_view(&a);
        }
        Ok(a)
    }
}

} // verus!
