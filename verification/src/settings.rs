//! The settings that are this application's own, and never go to the daemon.

use vstd::prelude::*;

use crate::keyed::KeyedList;
use crate::text::same_text;

verus! {

/// The settings of this application alone. Those of the daemon, which all its clients
/// share, stay with the daemon.
#[derive(Debug, PartialEq)]
pub struct LocalSettings {
    /// Quit when the daemon says that it shuts down. Off by default: that the daemon
    /// goes does not have to mean that this application goes too.
    pub quit_on_daemon_shutdown: bool,
    /// The widgets that are turned on. One that is not here is off, so that a widget
    /// newly installed does not appear out of nowhere.
    pub enabled_widgets: Vec<String>,
    /// Where each widget was last on the screen, in physical pixels.
    pub widget_positions: KeyedList<(i32, i32)>,
    /// For each widget the directory that serves it in place of its own.
    pub widget_appearance_overrides: KeyedList<String>,
}

/// The content of the settings.
pub struct LocalSettingsView {
    pub quit_on_daemon_shutdown: bool,
    pub enabled_widgets: Seq<Seq<char>>,
    pub widget_positions: Map<Seq<char>, (i32, i32)>,
    pub widget_appearance_overrides: Map<Seq<char>, Seq<char>>,
}

impl View for LocalSettings {
    type V = LocalSettingsView;

    open spec fn view(&self) -> LocalSettingsView {
        LocalSettingsView {
            quit_on_daemon_shutdown: self.quit_on_daemon_shutdown,
            enabled_widgets: self.enabled_widgets.deep_view(),
            widget_positions: self.widget_positions@,
            widget_appearance_overrides: self.widget_appearance_overrides@,
        }
    }
}

/// The widgets without one of them.
pub open spec fn widgets_without(widgets: Seq<Seq<char>>, id: Seq<char>) -> Seq<Seq<char>> {
    widgets.filter(|widget: Seq<char>| widget != id)
}

/// One widget more, and the same without one of them.
proof fn lemma_widgets_without_push(widgets: Seq<Seq<char>>, last: Seq<char>, id: Seq<char>)
    ensures
        widgets_without(widgets.push(last), id) == if last == id {
            widgets_without(widgets, id)
        } else {
            widgets_without(widgets, id).push(last)
        },
{
    reveal(Seq::filter);
    assert(widgets.push(last).drop_last() =~= widgets);
}

proof fn lemma_no_widgets_without(id: Seq<char>)
    ensures
        widgets_without(Seq::empty(), id) == Seq::<Seq<char>>::empty(),
{
    reveal(Seq::filter);
}

impl LocalSettingsView {
    /// The settings where none were ever made.
    pub open spec fn initial() -> LocalSettingsView {
        LocalSettingsView {
            quit_on_daemon_shutdown: false,
            enabled_widgets: Seq::empty(),
            widget_positions: Map::empty(),
            widget_appearance_overrides: Map::empty(),
        }
    }

    /// The settings with a widget turned on, as the last of them, or off.
    pub open spec fn with_widget(self, id: Seq<char>, enabled: bool) -> LocalSettingsView {
        let others = widgets_without(self.enabled_widgets, id);
        LocalSettingsView {
            enabled_widgets: if enabled {
                others.push(id)
            } else {
                others
            },
            ..self
        }
    }

    /// The settings with a widget somewhere else on the screen.
    pub open spec fn with_position(self, id: Seq<char>, x: i32, y: i32) -> LocalSettingsView {
        LocalSettingsView { widget_positions: self.widget_positions.insert(id, (x, y)), ..self }
    }

    /// The settings with another appearance of a widget.
    pub open spec fn with_appearance(self, id: Seq<char>, dir: Seq<char>) -> LocalSettingsView {
        LocalSettingsView {
            widget_appearance_overrides: self.widget_appearance_overrides.insert(id, dir),
            ..self
        }
    }

    /// The settings with a widget's own appearance.
    pub open spec fn without_appearance(self, id: Seq<char>) -> LocalSettingsView {
        LocalSettingsView {
            widget_appearance_overrides: self.widget_appearance_overrides.remove(id),
            ..self
        }
    }
}

impl Default for LocalSettings {
    fn default() -> (settings: Self)
        ensures
            settings@ == LocalSettingsView::initial(),
    {
        let settings = LocalSettings {
            quit_on_daemon_shutdown: false,
            enabled_widgets: Vec::new(),
            widget_positions: KeyedList::new(),
            widget_appearance_overrides: KeyedList::new(),
        };
        assert(settings.enabled_widgets.deep_view() =~= Seq::empty());
        settings
    }
}

impl LocalSettings {
    /// Whether to quit when the daemon shuts down.
    pub fn get_quit_on_daemon_shutdown(&self) -> (quit: bool)
        ensures
            quit == self@.quit_on_daemon_shutdown,
    {
        self.quit_on_daemon_shutdown
    }

    /// Sets whether to quit when the daemon shuts down.
    pub fn set_quit_on_daemon_shutdown(&mut self, enabled: bool)
        ensures
            final(self)@ == (LocalSettingsView { quit_on_daemon_shutdown: enabled, ..old(self)@ }),
    {
        self.quit_on_daemon_shutdown = enabled;
    }

    /// Whether a widget is turned on.
    pub fn is_widget_enabled(&self, id: &str) -> (enabled: bool)
        ensures
            enabled == self@.enabled_widgets.contains(id@),
    {
        let mut i: usize = 0;
        while i < self.enabled_widgets.len()
            invariant
                i <= self.enabled_widgets.len(),
                forall|j: int| 0 <= j < i ==> (#[trigger] self.enabled_widgets@[j])@ != id@,
            decreases self.enabled_widgets.len() - i,
        {
            if same_text(self.enabled_widgets[i].as_str(), id) {
                assert(self@.enabled_widgets[i as int] == id@);
                return true;
            }
            i += 1;
        }
        assert(forall|j: int|
            0 <= j < self@.enabled_widgets.len() ==> self@.enabled_widgets[j]
                == self.enabled_widgets@[j]@);
        false
    }

    /// Turns a widget on, as the last of those that are on, or off.
    pub fn set_widget_enabled(&mut self, id: &str, enabled: bool)
        ensures
            final(self)@ == old(self)@.with_widget(id@, enabled),
    {
        let ghost all = self.enabled_widgets.deep_view();
        let mut kept: Vec<String> = Vec::new();
        let mut i: usize = 0;
        proof {
            lemma_no_widgets_without(id@);
            assert(all.take(0) =~= Seq::empty());
            assert(kept.deep_view() =~= Seq::empty());
        }
        while i < self.enabled_widgets.len()
            invariant
                i <= self.enabled_widgets.len(),
                all == self.enabled_widgets.deep_view(),
                kept.deep_view() == widgets_without(all.take(i as int), id@),
                *self == *old(self),
            decreases self.enabled_widgets.len() - i,
        {
            let ghost before = kept.deep_view();
            let widget: &String = &self.enabled_widgets[i];
            proof {
                lemma_widgets_without_push(all.take(i as int), widget@, id@);
                assert(all.take(i + 1) =~= all.take(i as int).push(widget@));
            }
            if !same_text(widget.as_str(), id) {
                kept.push(widget.clone());
                assert(kept.deep_view() =~= before.push(widget@));
            }
            i += 1;
        }
        assert(all.take(i as int) =~= all);
        if enabled {
            let ghost before = kept.deep_view();
            kept.push(id.to_owned());
            assert(kept.deep_view() =~= before.push(id@));
        }
        self.enabled_widgets = kept;
    }

    /// Where a widget was last on the screen.
    pub fn widget_position(&self, id: &str) -> (position: Option<(i32, i32)>)
        ensures
            position == if self@.widget_positions.contains_key(id@) {
                Some(self@.widget_positions[id@])
            } else {
                None
            },
    {
        match self.widget_positions.get(id) {
            Some(position) => Some(*position),
            None => None,
        }
    }

    /// Notes where a widget is on the screen.
    pub fn set_widget_position(&mut self, id: String, x: i32, y: i32)
        ensures
            final(self)@ == old(self)@.with_position(id@, x, y),
    {
        self.widget_positions.insert(id, (x, y));
    }

    /// The directory that serves a widget in place of its own.
    pub fn appearance_override(&self, id: &str) -> (dir: Option<String>)
        ensures
            dir.deep_view() == if self@.widget_appearance_overrides.contains_key(id@) {
                Some(self@.widget_appearance_overrides[id@])
            } else {
                None
            },
    {
        match self.widget_appearance_overrides.get(id) {
            Some(dir) => Some(dir.clone()),
            None => None,
        }
    }

    /// Gives a widget another appearance.
    pub fn set_appearance(&mut self, id: String, dir: String)
        ensures
            final(self)@ == old(self)@.with_appearance(id@, dir@),
    {
        self.widget_appearance_overrides.insert(id, dir);
    }

    /// Gives a widget its own appearance back.
    pub fn reset_appearance(&mut self, id: &str)
        ensures
            final(self)@ == old(self)@.without_appearance(id@),
    {
        self.widget_appearance_overrides.remove(id);
    }
}

/// What a list contains with one item more.
proof fn lemma_contains_push(items: Seq<Seq<char>>, last: Seq<char>, probe: Seq<char>)
    ensures
        items.push(last).contains(probe) <==> items.contains(probe) || last == probe,
{
    let longer = items.push(last);
    if items.contains(probe) {
        let i = choose|i: int| 0 <= i < items.len() && items[i] == probe;
        assert(longer[i] == probe);
    }
    if last == probe {
        assert(longer[items.len() as int] == probe);
    }
    if longer.contains(probe) && last != probe {
        let i = choose|i: int| 0 <= i < longer.len() && longer[i] == probe;
        assert(items[i] == probe);
    }
}

/// Without a widget, all others are left.
proof fn lemma_widgets_left(widgets: Seq<Seq<char>>, id: Seq<char>, probe: Seq<char>)
    ensures
        widgets_without(widgets, id).contains(probe) <==> widgets.contains(probe) && probe != id,
    decreases widgets.len(),
{
    if widgets.len() > 0 {
        let front = widgets.drop_last();
        let last = widgets.last();
        assert(widgets =~= front.push(last));
        lemma_widgets_left(front, id, probe);
        lemma_widgets_without_push(front, last, id);
        lemma_contains_push(front, last, probe);
        lemma_contains_push(widgets_without(front, id), last, probe);
    } else {
        assert(widgets =~= Seq::empty());
        lemma_no_widgets_without(id);
    }
}

/// A widget is on exactly as it was last set, and no other widget is touched.
pub proof fn law_widget_is_as_last_set(
    settings: LocalSettingsView,
    id: Seq<char>,
    enabled: bool,
    other: Seq<char>,
)
    ensures
        settings.with_widget(id, enabled).enabled_widgets.contains(id) == enabled,
        other != id ==> settings.with_widget(id, enabled).enabled_widgets.contains(other)
            == settings.enabled_widgets.contains(other),
{
    let others = widgets_without(settings.enabled_widgets, id);
    lemma_widgets_left(settings.enabled_widgets, id, id);
    lemma_widgets_left(settings.enabled_widgets, id, other);
    lemma_contains_push(others, id, id);
    lemma_contains_push(others, id, other);
}

proof fn lemma_widgets_without_twice(widgets: Seq<Seq<char>>, id: Seq<char>)
    ensures
        widgets_without(widgets_without(widgets, id), id) == widgets_without(widgets, id),
    decreases widgets.len(),
{
    if widgets.len() > 0 {
        let front = widgets.drop_last();
        let last = widgets.last();
        assert(widgets =~= front.push(last));
        lemma_widgets_without_twice(front, id);
        lemma_widgets_without_push(front, last, id);
        lemma_widgets_without_push(widgets_without(front, id), last, id);
    } else {
        assert(widgets =~= Seq::empty());
        lemma_no_widgets_without(id);
    }
}

/// Setting a widget once more as it is set changes nothing.
pub proof fn law_setting_a_widget_twice_is_setting_it_once(
    settings: LocalSettingsView,
    id: Seq<char>,
    enabled: bool,
)
    ensures
        settings.with_widget(id, enabled).with_widget(id, enabled) == settings.with_widget(
            id,
            enabled,
        ),
{
    let others = widgets_without(settings.enabled_widgets, id);
    lemma_widgets_without_twice(settings.enabled_widgets, id);
    lemma_widgets_without_push(others, id, id);
}

/// No widget is listed twice, whatever is turned on or off, where none was before.
pub proof fn law_no_widget_is_listed_twice(settings: LocalSettingsView, id: Seq<char>, enabled: bool)
    requires
        settings.enabled_widgets.no_duplicates(),
    ensures
        settings.with_widget(id, enabled).enabled_widgets.no_duplicates(),
{
    let others = widgets_without(settings.enabled_widgets, id);
    lemma_widgets_without_no_duplicates(settings.enabled_widgets, id);
    lemma_widgets_left(settings.enabled_widgets, id, id);
    assert forall|i: int, j: int|
        0 <= i < others.push(id).len() && 0 <= j < others.push(id).len() && i
            != j implies others.push(id)[i] != others.push(id)[j] by {
        if i < others.len() {
            assert(others.contains(others[i]));
        }
        if j < others.len() {
            assert(others.contains(others[j]));
        }
    }
}

proof fn lemma_widgets_without_no_duplicates(widgets: Seq<Seq<char>>, id: Seq<char>)
    requires
        widgets.no_duplicates(),
    ensures
        widgets_without(widgets, id).no_duplicates(),
    decreases widgets.len(),
{
    if widgets.len() > 0 {
        let front = widgets.drop_last();
        let last = widgets.last();
        assert(widgets =~= front.push(last));
        lemma_widgets_without_no_duplicates(front, id);
        lemma_widgets_without_push(front, last, id);
        lemma_widgets_left(front, id, last);
        let kept = widgets_without(front, id);
        assert(!front.contains(last));
        assert forall|i: int, j: int|
            0 <= i < kept.push(last).len() && 0 <= j < kept.push(last).len() && i
                != j implies kept.push(last)[i] != kept.push(last)[j] by {
            if i < kept.len() {
                assert(kept.contains(kept[i]));
            }
            if j < kept.len() {
                assert(kept.contains(kept[j]));
            }
        }
    } else {
        assert(widgets =~= Seq::empty());
        lemma_no_widgets_without(id);
    }
}

/// A widget's position and appearance are as they were last set, those of other
/// widgets are untouched, and a widget whose appearance is reset has none but its own.
pub proof fn law_place_and_appearance_are_as_last_set(
    settings: LocalSettingsView,
    id: Seq<char>,
    other: Seq<char>,
    x: i32,
    y: i32,
    dir: Seq<char>,
)
    requires
        other != id,
    ensures
        settings.with_position(id, x, y).widget_positions[id] == (x, y),
        settings.with_position(id, x, y).widget_positions.contains_key(id),
        settings.with_position(id, x, y).widget_positions.contains_key(other)
            == settings.widget_positions.contains_key(other),
        settings.with_position(id, x, y).widget_positions[other] == settings.widget_positions[other],
        settings.with_appearance(id, dir).widget_appearance_overrides.contains_key(id),
        settings.with_appearance(id, dir).widget_appearance_overrides[id] == dir,
        settings.with_appearance(id, dir).widget_appearance_overrides.contains_key(other)
            == settings.widget_appearance_overrides.contains_key(other),
        settings.with_appearance(id, dir).widget_appearance_overrides[other]
            == settings.widget_appearance_overrides[other],
        !settings.without_appearance(id).widget_appearance_overrides.contains_key(id),
        settings.without_appearance(id).widget_appearance_overrides.contains_key(other)
            == settings.widget_appearance_overrides.contains_key(other),
        settings.without_appearance(id).widget_appearance_overrides[other]
            == settings.widget_appearance_overrides[other],
{
}

/// Where no settings were ever made, the application does not quit with the daemon, no widget
/// is on, and none has a place or an appearance but its own.
pub proof fn law_nothing_is_set_at_first(id: Seq<char>)
    ensures
        !LocalSettingsView::initial().quit_on_daemon_shutdown,
        LocalSettingsView::initial().enabled_widgets.len() == 0,
        !LocalSettingsView::initial().widget_positions.contains_key(id),
        !LocalSettingsView::initial().widget_appearance_overrides.contains_key(id),
{
}

/// A widget that is turned on is the last of those that are on. The others stay in their
/// order: what stands before the place of a widget and what stands behind it come one after
/// the other, as far as they are other widgets. Turning a widget on or off touches no other
/// setting.
pub proof fn law_widgets_keep_their_order(
    settings: LocalSettingsView,
    a: Seq<Seq<char>>,
    b: Seq<Seq<char>>,
    id: Seq<char>,
    enabled: bool,
)
    requires
        settings.enabled_widgets == a.push(id) + b,
        !a.contains(id),
        !b.contains(id),
    ensures
        settings.with_widget(id, false).enabled_widgets == a + b,
        settings.with_widget(id, true).enabled_widgets == (a + b).push(id),
        settings.with_widget(id, enabled).quit_on_daemon_shutdown
            == settings.quit_on_daemon_shutdown,
        settings.with_widget(id, enabled).widget_positions == settings.widget_positions,
        settings.with_widget(id, enabled).widget_appearance_overrides
            == settings.widget_appearance_overrides,
{
    lemma_widgets_without_append(a.push(id), b, id);
    lemma_widgets_without_push(a, id, id);
    lemma_widgets_without_none(a, id);
    lemma_widgets_without_none(b, id);
}

/// A widget that was off is turned on behind the others, and turning it off changes nothing.
pub proof fn law_a_widget_that_is_off_is_turned_on_last(
    settings: LocalSettingsView,
    id: Seq<char>,
)
    requires
        !settings.enabled_widgets.contains(id),
    ensures
        settings.with_widget(id, true).enabled_widgets == settings.enabled_widgets.push(id),
        settings.with_widget(id, false) == settings,
{
    lemma_widgets_without_none(settings.enabled_widgets, id);
}

/// Two lists of widgets, one after the other, without one of them.
proof fn lemma_widgets_without_append(a: Seq<Seq<char>>, b: Seq<Seq<char>>, id: Seq<char>)
    ensures
        widgets_without(a + b, id) == widgets_without(a, id) + widgets_without(b, id),
    decreases b.len(),
{
    if b.len() == 0 {
        assert(b =~= Seq::empty());
        assert(a + b =~= a);
        lemma_no_widgets_without(id);
        assert(widgets_without(a, id) + widgets_without(b, id) =~= widgets_without(a, id));
    } else {
        let front = b.drop_last();
        let last = b.last();
        assert(b =~= front.push(last));
        assert(a + b =~= (a + front).push(last));
        lemma_widgets_without_append(a, front, id);
        lemma_widgets_without_push(front, last, id);
        lemma_widgets_without_push(a + front, last, id);
        assert(widgets_without(a + b, id) =~= widgets_without(a, id) + widgets_without(b, id));
    }
}

/// Without a widget that is not among them, all are left as they are.
proof fn lemma_widgets_without_none(widgets: Seq<Seq<char>>, id: Seq<char>)
    requires
        !widgets.contains(id),
    ensures
        widgets_without(widgets, id) == widgets,
    decreases widgets.len(),
{
    if widgets.len() > 0 {
        let front = widgets.drop_last();
        let last = widgets.last();
        assert(widgets =~= front.push(last));
        lemma_contains_push(front, last, id);
        lemma_widgets_without_none(front, id);
        lemma_widgets_without_push(front, last, id);
    } else {
        assert(widgets =~= Seq::empty());
        lemma_no_widgets_without(id);
    }
}

/// Setting a widget's place or appearance touches no other setting.
pub proof fn law_place_and_appearance_touch_nothing_else(
    settings: LocalSettingsView,
    id: Seq<char>,
    x: i32,
    y: i32,
    dir: Seq<char>,
)
    ensures
        ({
            let placed = settings.with_position(id, x, y);
            &&& placed.quit_on_daemon_shutdown == settings.quit_on_daemon_shutdown
            &&& placed.enabled_widgets == settings.enabled_widgets
            &&& placed.widget_appearance_overrides == settings.widget_appearance_overrides
        }),
        ({
            let chosen = settings.with_appearance(id, dir);
            &&& chosen.quit_on_daemon_shutdown == settings.quit_on_daemon_shutdown
            &&& chosen.enabled_widgets == settings.enabled_widgets
            &&& chosen.widget_positions == settings.widget_positions
        }),
        ({
            let reset = settings.without_appearance(id);
            &&& reset.quit_on_daemon_shutdown == settings.quit_on_daemon_shutdown
            &&& reset.enabled_widgets == settings.enabled_widgets
            &&& reset.widget_positions == settings.widget_positions
        }),
{
}

/// The settings are seen as they are.
pub proof fn law_settings_are_seen_as_they_are(settings: LocalSettings)
    ensures
        settings@.quit_on_daemon_shutdown == settings.quit_on_daemon_shutdown,
        settings@.enabled_widgets == settings.enabled_widgets.deep_view(),
        settings@.widget_positions == settings.widget_positions@,
        settings@.widget_appearance_overrides == settings.widget_appearance_overrides@,
{
}

/// Turning a widget off takes it out wherever it is listed, and nothing else: of two lists,
/// one after the other, there is left what is left of each; of the widget alone, nothing; and
/// of another widget alone, that one. Turning it on does the same, and lists it at the end.
pub proof fn law_a_widget_is_taken_out_wherever_it_is(
    settings: LocalSettingsView,
    a: Seq<Seq<char>>,
    b: Seq<Seq<char>>,
    id: Seq<char>,
    other: Seq<char>,
)
    requires
        other != id,
    ensures
        ({
            let both = LocalSettingsView { enabled_widgets: a + b, ..settings };
            let first = LocalSettingsView { enabled_widgets: a, ..settings };
            let second = LocalSettingsView { enabled_widgets: b, ..settings };
            &&& both.with_widget(id, false).enabled_widgets == first.with_widget(
                id,
                false,
            ).enabled_widgets + second.with_widget(id, false).enabled_widgets
            &&& both.with_widget(id, true).enabled_widgets == both.with_widget(
                id,
                false,
            ).enabled_widgets.push(id)
        }),
        ({
            let alone = LocalSettingsView { enabled_widgets: seq![id], ..settings };
            alone.with_widget(id, false).enabled_widgets.len() == 0
        }),
        ({
            let alone = LocalSettingsView { enabled_widgets: seq![other], ..settings };
            alone.with_widget(id, false).enabled_widgets == seq![other]
        }),
{
    lemma_widgets_without_append(a, b, id);
    lemma_no_widgets_without(id);
    lemma_widgets_without_push(Seq::empty(), id, id);
    lemma_widgets_without_push(Seq::empty(), other, id);
    assert(Seq::empty().push(id) =~= seq![id]);
    assert(Seq::empty().push(other) =~= seq![other]);
}

} // verus!
