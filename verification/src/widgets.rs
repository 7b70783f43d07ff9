//! Widgets: which there are, which are on, and how their windows and files are served.

use vstd::prelude::*;
use vstd::string::*;

use crate::settings::LocalSettings;
use crate::text::same_text;

verus! {

/// What every widget window's label begins with.
pub const WIDGET_WINDOW_PREFIX: &'static str = "widget-";

/// A widget, as its manifest describes it. Its files are in `dir`, a directory in
/// whatever form the host has directories.
#[derive(Debug, Clone, PartialEq)]
pub struct WidgetManifest<D> {
    pub id: String,
    pub name: String,
    pub entry: String,
    pub dir: D,
}

/// A widget, and whether it is on.
#[derive(Debug, Clone, PartialEq)]
pub struct WidgetInfo<D> {
    pub manifest: WidgetManifest<D>,
    pub enabled: bool,
}

/// The first widget of an id.
pub open spec fn first_widget<D>(manifests: Seq<WidgetManifest<D>>, id: Seq<char>) -> Option<
    WidgetManifest<D>,
>
    decreases manifests.len(),
{
    if manifests.len() == 0 {
        None
    } else if manifests[0].id@ == id {
        Some(manifests[0])
    } else {
        first_widget(manifests.drop_first(), id)
    }
}

/// The first widget of an id stands behind those of other ids.
proof fn lemma_first_widget<D>(manifests: Seq<WidgetManifest<D>>, id: Seq<char>, n: int)
    requires
        0 <= n <= manifests.len(),
        forall|i: int| 0 <= i < n ==> (#[trigger] manifests[i]).id@ != id,
    ensures
        n == manifests.len() ==> first_widget(manifests, id) is None,
        n < manifests.len() && manifests[n].id@ == id ==> first_widget(manifests, id) == Some(
            manifests[n],
        ),
    decreases manifests.len(),
{
    if n > 0 {
        let rest = manifests.drop_first();
        assert(manifests[0].id@ != id);
        assert forall|i: int| 0 <= i < n - 1 implies (#[trigger] rest[i]).id@ != id by {
            assert(rest[i] == manifests[i + 1]);
        }
        lemma_first_widget(rest, id, n - 1);
    }
}

/// Where the first widget of an id stands.
fn widget_position<D>(manifests: &Vec<WidgetManifest<D>>, id: &str) -> (found: Option<usize>)
    ensures
        found matches Some(n) ==> n < manifests.len() && first_widget(manifests@, id@) == Some(
            manifests@[n as int],
        ),
        found is None ==> first_widget(manifests@, id@) is None,
{
    let mut n: usize = 0;
    while n < manifests.len()
        invariant
            n <= manifests.len(),
            forall|i: int| 0 <= i < n ==> (#[trigger] manifests@[i]).id@ != id@,
        decreases manifests.len() - n,
    {
        if same_text(manifests[n].id.as_str(), id) {
            proof {
                lemma_first_widget(manifests@, id@, n as int);
            }
            return Some(n);
        }
        n += 1;
    }
    proof {
        lemma_first_widget(manifests@, id@, n as int);
    }
    None
}

/// The first widget of an id.
pub fn find_widget<D>(manifests: Vec<WidgetManifest<D>>, id: &str) -> (found: Option<
    WidgetManifest<D>,
>)
    ensures
        found == first_widget(manifests@, id@),
{
    let mut manifests = manifests;
    match widget_position(&manifests, id) {
        Some(n) => Some(manifests.remove(n)),
        None => None,
    }
}

/// Every widget in order, each with whether it is on.
pub fn list_widgets<D>(manifests: Vec<WidgetManifest<D>>, settings: &LocalSettings) -> (infos: Vec<
    WidgetInfo<D>,
>)
    ensures
        infos.len() == manifests.len(),
        forall|i: int|
            0 <= i < infos.len() ==> (#[trigger] infos@[i]).manifest == manifests@[i]
                && infos@[i].enabled == settings@.enabled_widgets.contains(manifests@[i].id@),
{
    let mut infos: Vec<WidgetInfo<D>> = Vec::new();
    for manifest in it: manifests
        invariant
            it.seq() == manifests@,
            infos.len() == it.index(),
            forall|i: int|
                0 <= i < infos.len() ==> (#[trigger] infos@[i]).manifest == manifests@[i]
                    && infos@[i].enabled == settings@.enabled_widgets.contains(manifests@[i].id@),
    {
        let enabled: bool = settings.is_widget_enabled(manifest.id.as_str());
        infos.push(WidgetInfo { manifest, enabled });
    }
    infos
}

/// The widgets that are on, in the order in which they were turned on; one that there
/// is no manifest for is left out.
pub open spec fn widgets_on<D>(
    enabled: Seq<Seq<char>>,
    manifests: Seq<WidgetManifest<D>>,
) -> Seq<WidgetManifest<D>>
    decreases enabled.len(),
{
    if enabled.len() == 0 {
        Seq::empty()
    } else {
        let earlier = widgets_on(enabled.drop_last(), manifests);
        match first_widget(manifests, enabled.last()) {
            Some(manifest) => earlier.push(manifest),
            None => earlier,
        }
    }
}

/// The widgets to open again when the application starts.
pub fn reopen_enabled_widgets<'a, D>(
    manifests: &'a Vec<WidgetManifest<D>>,
    settings: &LocalSettings,
) -> (open: Vec<&'a WidgetManifest<D>>)
    ensures
        open@.map_values(|manifest: &WidgetManifest<D>| *manifest) == widgets_on(
            settings@.enabled_widgets,
            manifests@,
        ),
{
    let ghost enabled = settings@.enabled_widgets;
    let ghost plain = |manifest: &WidgetManifest<D>| *manifest;
    let mut open: Vec<&'a WidgetManifest<D>> = Vec::new();
    let mut i: usize = 0;
    assert(enabled.take(0) =~= Seq::empty());
    assert(open@.map_values(plain) =~= Seq::empty());
    while i < settings.enabled_widgets.len()
        invariant
            i <= settings.enabled_widgets.len(),
            enabled == settings.enabled_widgets.deep_view(),
            plain == (|manifest: &WidgetManifest<D>| *manifest),
            open@.map_values(plain) == widgets_on(enabled.take(i as int), manifests@),
        decreases settings.enabled_widgets.len() - i,
    {
        let id: &str = settings.enabled_widgets[i].as_str();
        proof {
            assert(enabled.take(i + 1).drop_last() =~= enabled.take(i as int));
            assert(enabled.take(i + 1).last() == id@);
        }
        if let Some(n) = widget_position(manifests, id) {
            let ghost before = open@;
            open.push(&manifests[n]);
            assert(open@.map_values(plain) =~= before.map_values(plain).push(manifests@[n as int]));
        }
        i += 1;
    }
    assert(enabled.take(i as int) =~= enabled);
    open
}

/// The label of a widget's window.
pub open spec fn window_label(id: Seq<char>) -> Seq<char> {
    WIDGET_WINDOW_PREFIX@ + id
}

/// The widget whose window has a label, if it is the label of a widget's window.
pub open spec fn labelled_widget(label: Seq<char>) -> Option<Seq<char>> {
    let n = WIDGET_WINDOW_PREFIX@.len() as int;
    if label.len() >= n && label.take(n) == WIDGET_WINDOW_PREFIX@ {
        Some(label.skip(n))
    } else {
        None
    }
}

/// The label of a widget's window.
pub fn widget_window_label(id: &str) -> (label: String)
    ensures
        label@ == window_label(id@),
{
    WIDGET_WINDOW_PREFIX.to_owned().concat(id)
}

/// The widget whose window has a label, if it is the label of a widget's window.
pub fn widget_of_window(label: &str) -> (id: Option<String>)
    ensures
        id.deep_view() == labelled_widget(label@),
{
    let len: usize = label.unicode_len();
    let n: usize = WIDGET_WINDOW_PREFIX.unicode_len();
    if len < n {
        return None;
    }
    let front: &str = label.substring_char(0, n);
    assert(label@.subrange(0, n as int) =~= label@.take(n as int));
    if same_text(front, WIDGET_WINDOW_PREFIX) {
        assert(label@.subrange(n as int, len as int) =~= label@.skip(n as int));
        Some(label.substring_char(n, len).to_owned())
    } else {
        None
    }
}

/// A widget is found again from the label of its window.
pub proof fn law_label_gives_the_widget_back(id: Seq<char>)
    ensures
        labelled_widget(window_label(id)) == Some(id),
{
    let n = WIDGET_WINDOW_PREFIX@.len() as int;
    assert(window_label(id).take(n) =~= WIDGET_WINDOW_PREFIX@);
    assert(window_label(id).skip(n) =~= id);
}

/// The address of the page that a widget's window shows.
pub open spec fn widget_address(id: Seq<char>, entry: Seq<char>) -> Seq<char> {
    "widget://"@ + id + "/"@ + entry
}

/// How a widget's window comes to be seen.
#[derive(Debug, PartialEq)]
pub enum WindowPlan {
    /// The window is there: show it and give it the focus.
    Show,
    /// Make the window, at its position where there is one.
    Create { label: String, url: String, title: String, position: Option<(i32, i32)> },
}

/// How a widget's window comes to be seen: it is shown where it is open already, and
/// else made, where it was last on the screen.
pub fn open_widget_window<D>(
    manifest: &WidgetManifest<D>,
    is_open: bool,
    settings: &LocalSettings,
) -> (plan: WindowPlan)
    ensures
        match plan {
            WindowPlan::Show => is_open,
            WindowPlan::Create { label, url, title, position } => {
                &&& !is_open
                &&& label@ == window_label(manifest.id@)
                &&& url@ == widget_address(manifest.id@, manifest.entry@)
                &&& title@ == manifest.name@
                &&& position == if settings@.widget_positions.contains_key(manifest.id@) {
                    Some(settings@.widget_positions[manifest.id@])
                } else {
                    None
                }
            },
        },
{
    if is_open {
        WindowPlan::Show
    } else {
        WindowPlan::Create {
            label: widget_window_label(manifest.id.as_str()),
            url: "widget://".to_owned().concat(manifest.id.as_str()).concat("/").concat(
                manifest.entry.as_str(),
            ),
            title: manifest.name.clone(),
            position: settings.widget_position(manifest.id.as_str()),
        }
    }
}

/// What becomes of a widget's window.
#[derive(Debug, Clone, Copy, PartialEq, Eq, Structural)]
pub enum WindowChange {
    Open,
    Close,
    /// Close it, and open it again, so that it is seen as it is now.
    Reopen,
    Keep,
}

/// What becomes of a widget's window when the widget is turned on or off. Where the
/// settings could not be written, nothing does.
pub fn after_widget_set(written: bool, enabled: bool) -> (change: WindowChange)
    ensures
        change == if !written {
            WindowChange::Keep
        } else if enabled {
            WindowChange::Open
        } else {
            WindowChange::Close
        },
{
    if !written {
        WindowChange::Keep
    } else if enabled {
        WindowChange::Open
    } else {
        WindowChange::Close
    }
}

/// What becomes of a widget's window when its appearance is changed: it is seen anew
/// where the widget is on. Where the settings could not be written, nothing does.
pub fn after_appearance_set(written: bool, settings: &LocalSettings, id: &str) -> (change:
    WindowChange)
    ensures
        change == if written && settings@.enabled_widgets.contains(id@) {
            WindowChange::Reopen
        } else {
            WindowChange::Keep
        },
{
    if written && settings.is_widget_enabled(id) {
        WindowChange::Reopen
    } else {
        WindowChange::Keep
    }
}

/// Gives a widget the appearance that a directory holds. A directory without a manifest
/// can never load, so it is not taken.
pub fn choose_widget_appearance(
    settings: &mut LocalSettings,
    id: String,
    dir: String,
    has_manifest: bool,
) -> (taken: bool)
    ensures
        taken == has_manifest,
        final(settings)@ == if has_manifest {
            old(settings)@.with_appearance(id@, dir@)
        } else {
            old(settings)@
        },
{
    if !has_manifest {
        return false;
    }
    settings.set_appearance(id, dir);
    true
}

/// What the user interface is told of a directory that was picked: the directory, where
/// it was taken and the settings were written.
pub fn picked_appearance(taken: bool, written: bool, dir: String) -> (told: Option<String>)
    ensures
        told == if taken && written {
            Some(dir)
        } else {
            None
        },
{
    if taken && written {
        Some(dir)
    } else {
        None
    }
}

/// The address of a widget's window leads to the page that its manifest names: it begins with
/// the scheme, what stands up to the next slash is the widget, and what stands behind that
/// slash is the page. So widgets and pages that differ have addresses that differ.
pub proof fn law_the_address_leads_to_the_entry(
    id: Seq<char>,
    entry: Seq<char>,
    other_id: Seq<char>,
    other_entry: Seq<char>,
)
    requires
        !id.contains('/'),
        !other_id.contains('/'),
    ensures
        ({
            let address = widget_address(id, entry);
            let slash = 9 + id.len() as int;
            &&& address.take(9) == "widget://"@
            &&& address.len() == slash + 1 + entry.len()
            &&& address[slash] == '/'
            &&& address.subrange(9, slash) == id
            &&& forall|i: int| 9 <= i < slash ==> address[i] != '/'
            &&& address.skip(slash + 1) == entry
        }),
        widget_address(id, entry) == widget_address(other_id, other_entry) <==> id == other_id
            && entry == other_entry,
{
    lemma_address(id, entry);
    lemma_address(other_id, other_entry);
    let a = widget_address(id, entry);
    let b = widget_address(other_id, other_entry);
    if a == b {
        let n = 9 + id.len() as int;
        let m = 9 + other_id.len() as int;
        if n < m {
            assert(b[n] != '/');
        }
        if m < n {
            assert(a[m] != '/');
        }
    }
}

/// Where the parts of an address stand.
proof fn lemma_address(id: Seq<char>, entry: Seq<char>)
    requires
        !id.contains('/'),
    ensures
        ({
            let address = widget_address(id, entry);
            let slash = 9 + id.len() as int;
            &&& address.take(9) == "widget://"@
            &&& address.len() == slash + 1 + entry.len()
            &&& address[slash] == '/'
            &&& address.subrange(9, slash) == id
            &&& forall|i: int| 9 <= i < slash ==> address[i] != '/'
            &&& address.skip(slash + 1) == entry
        }),
{
    reveal_strlit("widget://");
    reveal_strlit("/");
    let address = widget_address(id, entry);
    let slash = 9 + id.len() as int;
    assert(address.take(9) =~= "widget://"@);
    assert(address.subrange(9, slash) =~= id);
    assert(address.skip(slash + 1) =~= entry);
    assert forall|i: int| 9 <= i < slash implies address[i] != '/' by {
        assert(address[i] == id[i - 9]);
        assert(id.contains(id[i - 9]));
    }
}

/// The label of a widget's window is the prefix of widgets' windows with the id behind it, and
/// a label is that of a widget exactly where it is such a one.
pub proof fn law_labels_are_the_prefix_and_the_widget(id: Seq<char>, label: Seq<char>)
    ensures
        window_label(id).len() == 7 + id.len(),
        window_label(id).take(7) == "widget-"@,
        window_label(id).skip(7) == id,
        labelled_widget(label) == Some(id) <==> label == "widget-"@ + id,
        labelled_widget(label) is Some <==> label.len() >= 7 && label.take(7) == "widget-"@,
{
    reveal_strlit("widget-");
    assert(window_label(id).take(7) =~= "widget-"@);
    assert(window_label(id).skip(7) =~= id);
    if labelled_widget(label) == Some(id) {
        assert(label =~= label.take(7) + label.skip(7));
    }
    if label == "widget-"@ + id {
        law_label_gives_the_widget_back(id);
        assert(label == window_label(id));
    }
}

/// The widget of an id is the first that has it: it is one of the widgets, none before it has
/// the id, and there is none exactly where no widget has the id.
pub proof fn law_the_first_widget_is_found<D>(
    manifests: Seq<WidgetManifest<D>>,
    id: Seq<char>,
    n: int,
)
    ensures
        first_widget(manifests, id) is None <==> forall|i: int|
            0 <= i < manifests.len() ==> (#[trigger] manifests[i]).id@ != id,
        0 <= n < manifests.len() && manifests[n].id@ == id && (forall|i: int|
            0 <= i < n ==> (#[trigger] manifests[i]).id@ != id) ==> first_widget(manifests, id)
            == Some(manifests[n]),
        first_widget(manifests, id) matches Some(manifest) ==> manifest.id@ == id
            && manifests.contains(manifest),
    decreases manifests.len(),
{
    if manifests.len() > 0 {
        let rest = manifests.drop_first();
        assert(forall|i: int| 0 <= i < rest.len() ==> rest[i] == manifests[i + 1]);
        law_the_first_widget_is_found(rest, id, n - 1);
        if manifests[0].id@ == id {
            assert(manifests.contains(manifests[0]));
        } else {
            if first_widget(rest, id) is None {
                assert forall|i: int| 0 <= i < manifests.len() implies (#[trigger] manifests[i]).id@
                    != id by {
                    if i > 0 {
                        assert(rest[i - 1].id@ != id);
                    }
                }
            } else {
                let j = choose|j: int| 0 <= j < rest.len() && (#[trigger] rest[j]).id@ == id;
                assert(manifests[j + 1].id@ == id);
                let manifest = first_widget(rest, id)->0;
                let k = choose|k: int| 0 <= k < rest.len() && rest[k] == manifest;
                assert(manifests[k + 1] == manifest);
            }
        }
        if 0 < n < manifests.len() && manifests[n].id@ == id && (forall|i: int|
            0 <= i < n ==> (#[trigger] manifests[i]).id@ != id) {
            assert(rest[n - 1] == manifests[n]);
            assert forall|i: int| 0 <= i < n - 1 implies (#[trigger] rest[i]).id@ != id by {
                assert(manifests[i + 1].id@ != id);
            }
            assert(manifests[0].id@ != id);
        }
    }
}

/// The widgets that are opened again are those that are on and that there are: two lists of
/// widgets that are on, one after the other, open what each opens, one after the other; one
/// that there is a manifest for opens that one; and one that there is none for opens nothing.
pub proof fn law_widgets_that_are_on_are_opened<D>(
    a: Seq<Seq<char>>,
    b: Seq<Seq<char>>,
    id: Seq<char>,
    manifests: Seq<WidgetManifest<D>>,
)
    ensures
        widgets_on(a + b, manifests) == widgets_on(a, manifests) + widgets_on(b, manifests),
        widgets_on(Seq::empty(), manifests).len() == 0,
        (forall|i: int| 0 <= i < manifests.len() ==> (#[trigger] manifests[i]).id@ != id)
            ==> widgets_on(seq![id], manifests).len() == 0,
        (exists|i: int| 0 <= i < manifests.len() && (#[trigger] manifests[i]).id@ == id)
            ==> widgets_on(seq![id], manifests).len() == 1 && widgets_on(
            seq![id],
            manifests,
        )[0].id@ == id && manifests.contains(widgets_on(seq![id], manifests)[0]),
    decreases b.len(),
{
    law_the_first_widget_is_found(manifests, id, 0);
    assert(seq![id].drop_last() =~= Seq::empty());
    assert(seq![id].last() == id);
    assert(widgets_on(seq![id].drop_last(), manifests) =~= Seq::empty());
    if b.len() == 0 {
        assert(a + b =~= a);
        assert(widgets_on(a, manifests) + widgets_on(b, manifests) =~= widgets_on(a, manifests));
    } else {
        assert((a + b).drop_last() =~= a + b.drop_last());
        law_widgets_that_are_on_are_opened(a, b.drop_last(), id, manifests);
        assert(widgets_on(a + b, manifests) =~= widgets_on(a, manifests) + widgets_on(
            b,
            manifests,
        ));
    }
}

} // verus!
