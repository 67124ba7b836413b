//! Capture targets and the registry of live windows.

use vstd::prelude::*;
use crate::{normalize_filename, normalized};
use crate::screen_cap::error::{ScreenCapError, ScreenCapErrorCode};
use crate::text::{
    contains_text, decimal, is_digit, lemma_decimal_digits, lemma_decimal_injective,
    push_decimal, text_contains, text_equal,
};

verus! {

/// What the host said of one monitor when it was asked.
#[derive(Debug, Clone, Copy, PartialEq, Eq, Structural)]
pub struct MonitorTarget {
    pub index: u32,
    pub width: u32,
    pub height: u32,
}

/// What the host said of one window when it was asked. The handle is the
/// host's own and means nothing here.
#[derive(Debug, Clone)]
pub struct WindowTarget {
    pub handle: u32,
    pub title: String,
    pub minimized: bool,
    pub width: u32,
    pub height: u32,
}

/// The mathematical content of a `WindowTarget`.
pub struct WindowInfo {
    pub handle: u32,
    pub title: Seq<char>,
    pub minimized: bool,
    pub width: u32,
    pub height: u32,
}

impl View for WindowTarget {
    type V = WindowInfo;

    open spec fn view(&self) -> WindowInfo {
        WindowInfo {
            handle: self.handle,
            title: self.title@,
            minimized: self.minimized,
            width: self.width,
            height: self.height,
        }
    }
}

impl WindowTarget {
    /// A copy with the same content.
    pub fn duplicate(&self) -> (copy: WindowTarget)
        ensures
            copy@ == self@,
    {
        WindowTarget {
            handle: self.handle,
            title: self.title.clone(),
            minimized: self.minimized,
            width: self.width,
            height: self.height,
        }
    }
}

/// A source of pixels: a monitor or a window.
#[derive(Debug, Clone)]
pub enum CaptureTarget {
    Monitor(MonitorTarget),
    Window(WindowTarget),
}

/// One line of the registry: the generated key and the window it stands for.
#[derive(Debug, Clone)]
pub struct WindowEntry {
    pub key: String,
    pub target: WindowTarget,
}

impl View for WindowEntry {
    type V = (Seq<char>, WindowInfo);

    open spec fn view(&self) -> (Seq<char>, WindowInfo) {
        (self.key@, self.target@)
    }
}

/// The contents of a list of windows.
pub open spec fn targets_view(windows: Seq<WindowTarget>) -> Seq<WindowInfo> {
    windows.map_values(|w: WindowTarget| w@)
}

/// The contents of a list of registry lines.
pub open spec fn entries_view(entries: Seq<WindowEntry>) -> Seq<(Seq<char>, WindowInfo)> {
    entries.map_values(|e: WindowEntry| e@)
}

/// The key of the surviving window number `ordinal` (counted from zero) with
/// the raw title `title`.
pub open spec fn window_key(ordinal: nat, title: Seq<char>) -> Seq<char> {
    "window-"@ + decimal(ordinal) + "-_-"@ + normalized(title)
}

/// The registry of an enumeration: its windows that are not minimized, in
/// their order, each under the key of its place among them.
pub open spec fn registry_of(windows: Seq<WindowInfo>) -> Seq<(Seq<char>, WindowInfo)>
    decreases windows.len(),
{
    if windows.len() == 0 {
        Seq::empty()
    } else {
        let before = registry_of(windows.drop_last());
        let window = windows.last();
        if window.minimized {
            before
        } else {
            before.push((window_key(before.len(), window.title), window))
        }
    }
}

/// How many of `windows` are minimized.
pub open spec fn minimized_count(windows: Seq<WindowInfo>) -> nat
    decreases windows.len(),
{
    if windows.len() == 0 {
        0
    } else {
        minimized_count(windows.drop_last()) + if windows.last().minimized {
            1nat
        } else {
            0nat
        }
    }
}

/// What holds of every registry: no key occurs twice and no window in it is
/// minimized.
pub open spec fn registry_wf(entries: Seq<(Seq<char>, WindowInfo)>) -> bool {
    &&& forall|i: int, j: int|
        0 <= i < j < entries.len() ==> (#[trigger] entries[i]).0 != (#[trigger] entries[j]).0
    &&& forall|i: int| 0 <= i < entries.len() ==> !(#[trigger] entries[i]).1.minimized
}

/// The window that stands under `key`, if any.
pub open spec fn resolve(entries: Seq<(Seq<char>, WindowInfo)>, key: Seq<char>) -> Option<
    WindowInfo,
>
    decreases entries.len(),
{
    if entries.len() == 0 {
        None
    } else if entries.last().0 == key {
        Some(entries.last().1)
    } else {
        resolve(entries.drop_last(), key)
    }
}

/// Of an enumeration of `N` windows, `M` of them minimized, the registry
/// holds exactly `N - M`.
pub proof fn lemma_registry_len(windows: Seq<WindowInfo>)
    ensures
        registry_of(windows).len() + minimized_count(windows) == windows.len(),
    decreases windows.len(),
{
    if windows.len() > 0 {
        lemma_registry_len(windows.drop_last());
    }
}

/// Keys made for different ordinals differ, whatever the titles.
pub proof fn lemma_window_key_injective(i: nat, a: Seq<char>, j: nat, b: Seq<char>)
    requires
        window_key(i, a) == window_key(j, b),
    ensures
        i == j,
{
    reveal_strlit("window-");
    reveal_strlit("-_-");
    let head = "window-"@;
    let mid = "-_-"@;
    let di = decimal(i);
    let dj = decimal(j);
    let ki = window_key(i, a);
    let kj = window_key(j, b);
    lemma_decimal_digits(i);
    lemma_decimal_digits(j);
    assert(head.len() == 7);
    assert(mid.len() == 3 && mid[0] == '-');
    assert forall|t: int| 0 <= t < di.len() implies ki[7 + t] == di[t] by {}
    assert forall|t: int| 0 <= t < dj.len() implies kj[7 + t] == dj[t] by {}
    assert(ki[7 + di.len() as int] == mid[0]);
    assert(kj[7 + dj.len() as int] == mid[0]);
    if di.len() < dj.len() {
        assert(kj[7 + di.len() as int] == dj[di.len() as int]);
        assert(is_digit(dj[di.len() as int]));
        assert(false);
    } else if dj.len() < di.len() {
        assert(ki[7 + dj.len() as int] == di[dj.len() as int]);
        assert(is_digit(di[dj.len() as int]));
        assert(false);
    } else {
        assert forall|t: int| 0 <= t < di.len() implies di[t] == dj[t] by {
            assert(ki[7 + t] == kj[7 + t]);
        }
        assert(di =~= dj);
        lemma_decimal_injective(i, j);
    }
}

/// Every line of a registry holds the key of its own place.
pub proof fn lemma_registry_keys(windows: Seq<WindowInfo>)
    ensures
        forall|k: int|
            0 <= k < registry_of(windows).len() ==> (#[trigger] registry_of(windows)[k]).0
                == window_key(k as nat, registry_of(windows)[k].1.title) && !registry_of(
                windows,
            )[k].1.minimized,
    decreases windows.len(),
{
    if windows.len() > 0 {
        lemma_registry_keys(windows.drop_last());
        let before = registry_of(windows.drop_last());
        let all = registry_of(windows);
        assert forall|k: int| 0 <= k < all.len() implies (#[trigger] all[k]).0 == window_key(
            k as nat,
            all[k].1.title,
        ) && !all[k].1.minimized by {
            if k < before.len() {
                assert(all[k] == before[k]);
            }
        }
    }
}

/// In the registry of any enumeration no key occurs twice, and no window is
/// minimized.
pub proof fn lemma_registry_wf(windows: Seq<WindowInfo>)
    ensures
        registry_wf(registry_of(windows)),
{
    let entries = registry_of(windows);
    lemma_registry_keys(windows);
    assert forall|i: int, j: int| 0 <= i < j < entries.len() implies (#[trigger] entries[i]).0
        != (#[trigger] entries[j]).0 by {
        if entries[i].0 == entries[j].0 {
            lemma_window_key_injective(
                i as nat,
                entries[i].1.title,
                j as nat,
                entries[j].1.title,
            );
        }
    }
}

/// The monitor number `number` of the host's enumeration, counted from zero:
/// `TargetEnumerationFailed` with the host's words where the enumeration
/// gave none, `TargetNotFound` with the number as its context where the host
/// has fewer monitors.
pub fn select_monitor(enumeration: Result<Vec<MonitorTarget>, String>, number: u32) -> (r: Result<
    MonitorTarget,
    ScreenCapError,
>)
    ensures
        match enumeration {
            Ok(monitors) => if number < monitors@.len() {
                r == Ok::<MonitorTarget, ScreenCapError>(monitors@[number as int])
            } else {
                r matches Err(e) && e.is(
                    ScreenCapErrorCode::TargetNotFound,
                    Some(decimal(number as nat)),
                )
            },
            Err(context) => r matches Err(e) && e.is(
                ScreenCapErrorCode::TargetEnumerationFailed,
                Some(context@),
            ),
        },
{
    match enumeration {
        Ok(monitors) => {
            if (number as usize) < monitors.len() {
                Ok(monitors[number as usize])
            } else {
                let mut context = String::new();
                push_decimal(&mut context, number as u64);
                assert(context@ =~= decimal(number as nat));
                Err(
                    ScreenCapError {
                        code: ScreenCapErrorCode::TargetNotFound,
                        message: Some(context),
                    },
                )
            }
        },
        Err(context) => Err(
            ScreenCapError {
                code: ScreenCapErrorCode::TargetEnumerationFailed,
                message: Some(context),
            },
        ),
    }
}

/// Builds the key of the surviving window number `ordinal`.
fn make_key(ordinal: usize, title: &str) -> (key: String)
    ensures
        key@ == window_key(ordinal as nat, title@),
{
    let mut key = String::from_str("window-");
    push_decimal(&mut key, ordinal as u64);
    key.append("-_-");
    let name = normalize_filename(title);
    key.append(name.as_str());
    key
}

/// The live windows of one enumeration, each under a key of its own.
#[derive(Debug)]
pub struct WindowList {
    entries: Vec<WindowEntry>,
}

impl View for WindowList {
    type V = Seq<(Seq<char>, WindowInfo)>;

    closed spec fn view(&self) -> Seq<(Seq<char>, WindowInfo)> {
        entries_view(self.entries@)
    }
}

/// The line of `entries` that stands under `key`, by its index.
fn find_key(entries: &Vec<WindowEntry>, key: &str) -> (found: Option<usize>)
    ensures
        match found {
            Some(k) => k < entries@.len() && entries@[k as int].key@ == key@ && resolve(
                entries_view(entries@),
                key@,
            ) == Some(entries@[k as int].target@),
            None => resolve(entries_view(entries@), key@) is None,
        },
{
    let ghost all = entries_view(entries@);
    let mut k: usize = entries.len();
    assert(all.take(k as int) =~= all);
    while k > 0
        invariant
            k <= entries@.len(),
            all == entries_view(entries@),
            resolve(all, key@) == resolve(all.take(k as int), key@),
        decreases k,
    {
        k -= 1;
        proof {
            let part = all.take(k + 1);
            assert(part.last() == all[k as int]);
            assert(part.drop_last() =~= all.take(k as int));
        }
        if text_equal(entries[k].key.as_str(), key) {
            return Some(k);
        }
    }
    None
}

impl WindowList {
    #[verifier::type_invariant]
    spec fn inv(self) -> bool {
        registry_wf(entries_view(self.entries@))
    }

    /// The registry of the enumeration `windows`: the minimized ones are left
    /// out, and each of the others stands under `window-<ordinal>-_-<title>`,
    /// its ordinal counted from zero over those that stay, its title without
    /// the characters `| \ : /`.
    pub fn new(windows: &Vec<WindowTarget>) -> (list: WindowList)
        ensures
            list@ == registry_of(targets_view(windows@)),
            list@.len() + minimized_count(targets_view(windows@)) == windows@.len(),
            registry_wf(list@),
    {
        let ghost all = targets_view(windows@);
        let mut entries: Vec<WindowEntry> = Vec::new();
        let mut i: usize = 0;
        assert(all.take(0) =~= Seq::<WindowInfo>::empty());
        while i < windows.len()
            invariant
                i <= windows@.len(),
                all == targets_view(windows@),
                entries@.len() <= i,
                entries_view(entries@) == registry_of(all.take(i as int)),
            decreases windows@.len() - i,
        {
            let window = &windows[i];
            proof {
                let part = all.take(i + 1);
                assert(part.last() == window@);
                assert(part.drop_last() =~= all.take(i as int));
            }
            if !window.minimized {
                let key = make_key(entries.len(), window.title.as_str());
                let ghost before = entries_view(entries@);
                entries.push(WindowEntry { key, target: window.duplicate() });
                assert(entries_view(entries@) =~= before.push(
                    (window_key(before.len(), window@.title), window@),
                ));
            }
            i += 1;
        }
        proof {
            assert(all.take(i as int) =~= all);
            lemma_registry_wf(all);
            lemma_registry_len(all);
        }
        WindowList { entries }
    }

    /// The registry of what the host's enumeration gave: `new` of the windows,
    /// or `TargetEnumerationFailed` with the host's words where it gave none.
    pub fn from_enumeration(outcome: Result<Vec<WindowTarget>, String>) -> (r: Result<
        WindowList,
        ScreenCapError,
    >)
        ensures
            match outcome {
                Ok(windows) => r matches Ok(list) && list@ == registry_of(
                    targets_view(windows@),
                ),
                Err(context) => r matches Err(e) && e.is(
                    ScreenCapErrorCode::TargetEnumerationFailed,
                    Some(context@),
                ),
            },
    {
        match outcome {
            Ok(windows) => Ok(WindowList::new(&windows)),
            Err(context) => Err(
                ScreenCapError {
                    code: ScreenCapErrorCode::TargetEnumerationFailed,
                    message: Some(context),
                },
            ),
        }
    }

    /// The lines whose key holds `title` somewhere, upper and lower case
    /// told apart, in their order. The receiver is used up.
    pub fn filter_by_title(self, title: &str) -> (list: WindowList)
        ensures
            list@ == self@.filter(|e: (Seq<char>, WindowInfo)| contains_text(e.0, title@)),
            forall|k: int| 0 <= k < list@.len() ==> contains_text((#[trigger] list@[k]).0, title@),
            forall|k: int| 0 <= k < list@.len() ==> self@.contains(#[trigger] list@[k]),
            forall|k: int|
                0 <= k < self@.len() && contains_text((#[trigger] self@[k]).0, title@)
                    ==> list@.contains(self@[k]),
            registry_wf(list@),
    {
        proof {
            use_type_invariant(&self);
        }
        let ghost all = self@;
        let ghost pred = |e: (Seq<char>, WindowInfo)| contains_text(e.0, title@);
        let ghost mut origin: Seq<int> = Seq::empty();
        let mut kept: Vec<WindowEntry> = Vec::new();
        let mut i: usize = 0;
        proof {
            reveal(Seq::filter);
            assert(all.take(0).filter(pred) =~= Seq::<(Seq<char>, WindowInfo)>::empty());
        }
        while i < self.entries.len()
            invariant
                i <= self.entries@.len(),
                all == entries_view(self.entries@),
                registry_wf(all),
                pred == |e: (Seq<char>, WindowInfo)| contains_text(e.0, title@),
                entries_view(kept@) == all.take(i as int).filter(pred),
                origin.len() == kept@.len(),
                forall|a: int|
                    0 <= a < origin.len() ==> 0 <= #[trigger] origin[a] < i && entries_view(
                        kept@,
                    )[a] == all[origin[a]],
                forall|a: int, b: int|
                    0 <= a < b < origin.len() ==> #[trigger] origin[a] < #[trigger] origin[b],
            decreases self.entries@.len() - i,
        {
            let entry = &self.entries[i];
            proof {
                assert(all.take(i + 1) =~= all.take(i as int).push(entry@));
                all.take(i as int).lemma_filter_push(entry@, pred);
            }
            if text_contains(entry.key.as_str(), title) {
                let ghost before = entries_view(kept@);
                kept.push(WindowEntry { key: entry.key.clone(), target: entry.target.duplicate() });
                proof {
                    origin = origin.push(i as int);
                    assert(entries_view(kept@) =~= before.push(entry@));
                }
            }
            i += 1;
        }
        proof {
            assert(all.take(i as int) =~= all);
            let out = entries_view(kept@);
            assert forall|a: int, b: int| 0 <= a < b < out.len() implies (#[trigger] out[a]).0 != (
            #[trigger] out[b]).0 by {
                assert(origin[a] < origin[b]);
                assert(out[a] == all[origin[a]]);
                assert(out[b] == all[origin[b]]);
            }
            assert forall|k: int| 0 <= k < out.len() implies !(#[trigger] out[k]).1.minimized by {
                assert(out[k] == all[origin[k]]);
            }
            assert forall|k: int| 0 <= k < out.len() implies contains_text(
                (#[trigger] out[k]).0,
                title@,
            ) by {
                all.lemma_filter_pred(pred, k);
            }
            assert forall|k: int| 0 <= k < out.len() implies all.contains(#[trigger] out[k]) by {
                assert(out[k] == all[origin[k]]);
            }
            assert forall|k: int|
                0 <= k < all.len() && contains_text((#[trigger] all[k]).0, title@) implies out.contains(
                all[k],
            ) by {
                all.lemma_filter_contains(pred, k);
            }
        }
        WindowList { entries: kept }
    }

    /// The number of lines.
    pub fn len(&self) -> (n: usize)
        ensures
            n == self@.len(),
    {
        self.entries.len()
    }

    /// The lines in their order, each as its key and its window.
    pub fn get_vec(&self) -> (lines: Vec<(&String, &WindowTarget)>)
        ensures
            lines@.len() == self@.len(),
            forall|k: int|
                0 <= k < lines@.len() ==> (#[trigger] lines@[k]).0@ == self@[k].0 && lines@[k].1@
                    == self@[k].1,
            registry_wf(self@),
    {
        proof {
            use_type_invariant(self);
        }
        let mut lines: Vec<(&String, &WindowTarget)> = Vec::new();
        let mut i: usize = 0;
        while i < self.entries.len()
            invariant
                i <= self.entries@.len(),
                lines@.len() == i,
                forall|k: int|
                    0 <= k < i ==> (#[trigger] lines@[k]).0@ == self.entries@[k].key@
                        && lines@[k].1@ == self.entries@[k].target@,
            decreases self.entries@.len() - i,
        {
            let entry = &self.entries[i];
            lines.push((&entry.key, &entry.target));
            i += 1;
        }
        lines
    }

    /// The window of line `index`, or `TargetNotFound` with the index as its
    /// context where the registry has no such line.
    pub fn target_at(&self, index: usize) -> (r: Result<&WindowTarget, ScreenCapError>)
        ensures
            match r {
                Ok(target) => index < self@.len() && target@ == self@[index as int].1,
                Err(e) => index >= self@.len() && e.is(
                    ScreenCapErrorCode::TargetNotFound,
                    Some(decimal(index as nat)),
                ),
            },
    {
        if index < self.entries.len() {
            Ok(&self.entries[index].target)
        } else {
            let mut context = String::new();
            push_decimal(&mut context, index as u64);
            assert(context@ =~= decimal(index as nat));
            Err(ScreenCapError { code: ScreenCapErrorCode::TargetNotFound, message: Some(context) })
        }
    }

    /// Whether the window under `window_name` has another frame size in
    /// `fresh`, a registry built after this one, than it has here.
    /// `TargetNotFound` with the key as its context where either registry has
    /// no such key.
    pub fn window_has_resized(&self, window_name: &str, fresh: &WindowList) -> (r: Result<
        bool,
        ScreenCapError,
    >)
        ensures
            match r {
                Ok(resized) => resolve(self@, window_name@) matches Some(was) && resolve(
                    fresh@,
                    window_name@,
                ) matches Some(now) && resized == (was.width != now.width || was.height
                    != now.height),
                Err(e) => (resolve(self@, window_name@) is None || resolve(
                    fresh@,
                    window_name@,
                ) is None) && e.is(ScreenCapErrorCode::TargetNotFound, Some(window_name@)),
            },
    {
        let was = find_key(&self.entries, window_name);
        let now = find_key(&fresh.entries, window_name);
        match (was, now) {
            (Some(a), Some(b)) => {
                let old_target = &self.entries[a].target;
                let new_target = &fresh.entries[b].target;
                Ok(
                    old_target.width != new_target.width || old_target.height
                        != new_target.height,
                )
            },
            _ => Err(ScreenCapError::new(ScreenCapErrorCode::TargetNotFound, Some(window_name))),
        }
    }
}

} // verus!
