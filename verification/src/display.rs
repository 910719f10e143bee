//! Which settings the window shows, and which native changes bring it from
//! one set of settings to another. An error display widens a collapsed strip
//! without touching what is saved.

use vstd::prelude::*;

use crate::model::{Settings, Validate};

verus! {

/// The settings as shown: an error display forces the strip open; nothing
/// else differs from what is saved.
pub open spec fn shown(saved: Settings, error_display: bool) -> Settings {
    Settings { collapsed: saved.collapsed && !error_display, ..saved }
}

/// Two settings agree field by field (the side by its text).
pub open spec fn same_settings(a: Settings, b: Settings) -> bool {
    &&& a.side@ == b.side@
    &&& a.collapsed == b.collapsed
    &&& a.ontop == b.ontop
    &&& a.completed_expanded == b.completed_expanded
}

pub fn display_settings(saved: &Settings, error_display: bool) -> (r: Settings)
    ensures
        same_settings(r, shown(*saved, error_display)),
{
    Settings {
        side: saved.side.clone(),
        collapsed: saved.collapsed && !error_display,
        ontop: saved.ontop,
        completed_expanded: saved.completed_expanded,
    }
}

/// The native changes that take the window from one shown state to the
/// next: the topmost flag, and a re-dock to a side and width.
pub struct NativeChanges {
    pub ontop: Option<bool>,
    pub dock: bool,
}

/// Whether the topmost flag must be set: always at startup, otherwise when
/// it differs.
pub open spec fn sets_ontop(previous: Option<Settings>, next: Settings) -> bool {
    match previous {
        None => true,
        Some(old) => old.ontop != next.ontop,
    }
}

/// Whether the window must be re-docked: always at startup, otherwise when
/// the side or the collapsed state differs.
pub open spec fn redocks(previous: Option<Settings>, next: Settings) -> bool {
    match previous {
        None => true,
        Some(old) => old.side@ != next.side@ || old.collapsed != next.collapsed,
    }
}

/// Plans the native changes for the next settings; invalid settings are
/// refused before anything changes.
pub fn native_changes(previous: Option<&Settings>, next: &Settings) -> (r: Result<NativeChanges, String>)
    ensures
        !next.valid() ==> (r matches Err(e) && e@ == next.problem()),
        next.valid() ==> (r matches Ok(c) && c.ontop == (if sets_ontop(
            match previous {
                Some(p) => Some(*p),
                None => None,
            },
            *next,
        ) {
            Some(next.ontop)
        } else {
            None
        }) && c.dock == redocks(
            match previous {
                Some(p) => Some(*p),
                None => None,
            },
            *next,
        )),
{
    next.validate()?;
    let (ontop, dock) = match previous {
        None => (Some(next.ontop), true),
        Some(old) => {
            let ontop = if old.ontop != next.ontop {
                Some(next.ontop)
            } else {
                None
            };
            (ontop, !(old.side == next.side) || old.collapsed != next.collapsed)
        },
    };
    Ok(NativeChanges { ontop, dock })
}

/// Shown settings keep the saved side, topmost flag and completed-section
/// state; the strip is collapsed exactly when it is saved collapsed and no
/// error is displayed.
pub proof fn law_shown_differs_only_in_collapse(saved: Settings, error_display: bool)
    ensures
        shown(saved, error_display).side == saved.side,
        shown(saved, error_display).ontop == saved.ontop,
        shown(saved, error_display).completed_expanded == saved.completed_expanded,
        shown(saved, error_display).collapsed <==> (saved.collapsed && !error_display),
{
}

/// A change of the collapsed state, or of the side, re-docks the strip; a
/// change of neither never does. The topmost flag is set exactly when it
/// changes. At startup both are applied.
pub proof fn law_changes_follow_differences(a: Settings, b: Settings)
    ensures
        a.collapsed != b.collapsed ==> redocks(Some(a), b),
        a.side@ != b.side@ ==> redocks(Some(a), b),
        redocks(Some(a), b) ==> (a.collapsed != b.collapsed || a.side@ != b.side@),
        sets_ontop(Some(a), b) <==> a.ontop != b.ontop,
        redocks(None, b) && sets_ontop(None, b),
{
}

/// An undo of a change touches exactly what the change touched.
pub proof fn law_rollback_mirrors_change(a: Settings, b: Settings)
    ensures
        sets_ontop(Some(a), b) == sets_ontop(Some(b), a),
        redocks(Some(a), b) == redocks(Some(b), a),
{
}

/// Changing only whether the completed section is expanded, or applying the
/// same settings again, needs no native change at all.
pub proof fn law_section_toggle_is_not_native(a: Settings, b: Settings)
    requires
        a.side@ == b.side@,
        a.collapsed == b.collapsed,
        a.ontop == b.ontop,
    ensures
        !sets_ontop(Some(a), b),
        !redocks(Some(a), b),
{
}

/// An error display never collapses the strip, and without one the saved
/// settings are shown as they are.
pub proof fn law_error_display_only_expands(saved: Settings, error_display: bool)
    ensures
        error_display ==> !shown(saved, error_display).collapsed,
        !error_display ==> shown(saved, error_display) == saved,
        same_settings(shown(saved, error_display), saved) <== !saved.collapsed,
{
}

/// The window state of the application: the saved settings it applied, and
/// whether an error display currently widens it.
pub struct NativeLayout {
    applied: Settings,
    error_display: bool,
}

pub struct LayoutView {
    pub applied: Settings,
    pub error_display: bool,
}

impl View for NativeLayout {
    type V = LayoutView;

    closed spec fn view(&self) -> LayoutView {
        LayoutView { applied: self.applied, error_display: self.error_display }
    }
}

impl NativeLayout {
    pub fn new(initial: Settings) -> (r: Self)
        ensures
            r@.applied == initial,
            !r@.error_display,
    {
        NativeLayout { applied: initial, error_display: false }
    }

    pub fn applied(&self) -> (r: &Settings)
        ensures
            *r == self@.applied,
    {
        &self.applied
    }

    pub fn error_display(&self) -> (r: bool)
        ensures
            r == self@.error_display,
    {
        self.error_display
    }

    /// What the window shows now, and what it would show with the given
    /// saved settings.
    pub fn transition_to(&self, settings: &Settings) -> (r: (Settings, Settings))
        ensures
            same_settings(r.0, shown(self@.applied, self@.error_display)),
            same_settings(r.1, shown(*settings, self@.error_display)),
    {
        (display_settings(&self.applied, self.error_display), display_settings(settings, self.error_display))
    }

    /// What the window shows now and with the error display switched; none
    /// when it already is as asked.
    pub fn error_display_transition(&self, visible: bool) -> (r: Option<(Settings, Settings)>)
        ensures
            visible == self@.error_display ==> r is None,
            visible != self@.error_display ==> (r matches Some(t) && same_settings(
                t.0,
                shown(self@.applied, self@.error_display),
            ) && same_settings(t.1, shown(self@.applied, visible))),
    {
        if self.error_display == visible {
            return None;
        }
        Some((display_settings(&self.applied, self.error_display), display_settings(&self.applied, visible)))
    }

    /// Records settings that were applied and saved.
    pub fn adopt(&mut self, settings: Settings)
        ensures
            final(self)@.applied == settings,
            final(self)@.error_display == old(self)@.error_display,
    {
        self.applied = settings;
    }

    /// Records the error display; the saved settings stay as they are.
    pub fn set_error_display(&mut self, visible: bool)
        ensures
            final(self)@.applied == old(self)@.applied,
            final(self)@.error_display == visible,
    {
        self.error_display = visible;
    }
}

/// The error of a failed change, with the failure of its rollback if that
/// failed too.
pub open spec fn with_rollback_text(error: Seq<char>, joiner: Seq<char>, rollback: Result<(), Seq<char>>) -> Seq<char> {
    match rollback {
        Ok(()) => error,
        Err(e) => error + joiner + e,
    }
}

pub fn with_rollback(error: String, joiner: &str, rollback: Result<(), String>) -> (r: String)
    ensures
        r@ == with_rollback_text(error@, joiner@, match rollback {
            Ok(()) => Ok(()),
            Err(e) => Err(e@),
        }),
{
    match rollback {
        Ok(()) => error,
        Err(e) => {
            let mut s = error;
            s.append(joiner);
            s.append(e.as_str());
            s
        },
    }
}

/// The answer to a preserve-and-reload request: the reloaded value or the
/// error of the reload, and where the unsaved value was kept.
pub struct ReloadResult<T> {
    pub value: Option<T>,
    pub error: Option<String>,
    pub preserved_path: String,
}

pub fn reload_result<T>(result: Result<T, String>, path: String) -> (r: ReloadResult<T>)
    ensures
        r.preserved_path == path,
        match result {
            Ok(v) => r.value == Some(v) && r.error is None,
            Err(e) => r.value is None && r.error == Some(e),
        },
{
    let (value, error) = match result {
        Ok(value) => (Some(value), None),
        Err(error) => (None, Some(error)),
    };
    ReloadResult { value, error, preserved_path: path }
}

} // verus!
