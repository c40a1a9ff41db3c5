//! The interactive link wizard: its steps, its fields and what each key does
//! to them. Drawing the screen and reading keys are left to the caller.

use vstd::prelude::*;
use crate::dispatch::{link_result, resolve_link};
use crate::fs::{str_views, FsView};
use crate::manifest::opt_str;
use crate::model::{Ecosystem, ErrView, LinkdError};
use crate::text::{from_chars, to_chars};
use crate::validate::{link_paths_check, validate_link_paths};

verus! {

/// A step of the wizard.
#[derive(Clone, Copy, Debug, PartialEq, Eq, Structural)]
pub enum WizardStep {
    LinkType,
    Source,
    Consumer,
    Target,
    Confirm,
}

/// The link type that asks for a target directory.
pub const CUSTOM_LINK_TYPE: usize = 2;

/// What the wizard collected.
#[derive(Debug)]
pub struct WizardResult {
    pub source: String,
    pub consumer: String,
    pub target: Option<String>,
    pub ecosystem: Ecosystem,
    pub start_daemon: bool,
}

/// The wizard's state.
#[derive(Debug)]
pub struct WizardState {
    pub step: WizardStep,
    /// 0: npm package, 1: composer package, 2: custom path.
    pub link_type: usize,
    pub source: String,
    pub consumer: String,
    pub target: String,
    pub start_daemon: bool,
    /// Why the last attempt to finish failed.
    pub error: Option<LinkdError>,
}

/// A key that the wizard reacts to.
#[derive(Clone, Copy, Debug, PartialEq, Eq, Structural)]
pub enum WizardKey {
    CtrlC,
    Up,
    Down,
    Enter,
    Esc,
    Backspace,
    Left,
    AltLeft,
    Char(char),
    Other,
}

/// How the wizard goes on after a key.
#[derive(Debug)]
pub enum WizardOutcome {
    Continue,
    Cancelled,
    Finished(WizardResult),
}

/// The step after `step`; the target is asked for custom links only.
pub open spec fn step_after(step: WizardStep, link_type: usize) -> WizardStep {
    match step {
        WizardStep::LinkType => WizardStep::Source,
        WizardStep::Source => WizardStep::Consumer,
        WizardStep::Consumer => if link_type == CUSTOM_LINK_TYPE {
            WizardStep::Target
        } else {
            WizardStep::Confirm
        },
        WizardStep::Target => WizardStep::Confirm,
        WizardStep::Confirm => WizardStep::Confirm,
    }
}

/// The step before `step`.
pub open spec fn step_before(step: WizardStep, link_type: usize) -> WizardStep {
    match step {
        WizardStep::LinkType => WizardStep::LinkType,
        WizardStep::Source => WizardStep::LinkType,
        WizardStep::Consumer => WizardStep::Source,
        WizardStep::Target => WizardStep::Consumer,
        WizardStep::Confirm => if link_type == CUSTOM_LINK_TYPE {
            WizardStep::Target
        } else {
            WizardStep::Consumer
        },
    }
}

/// The number of a step, from 1 to 5.
pub open spec fn step_number(step: WizardStep) -> int {
    match step {
        WizardStep::LinkType => 1,
        WizardStep::Source => 2,
        WizardStep::Consumer => 3,
        WizardStep::Target => 4,
        WizardStep::Confirm => 5,
    }
}

/// The ecosystem of a link type.
pub open spec fn type_ecosystem(link_type: usize) -> Ecosystem {
    if link_type == 1 {
        Ecosystem::Composer
    } else if link_type == CUSTOM_LINK_TYPE {
        Ecosystem::Custom
    } else {
        Ecosystem::Npm
    }
}

impl WizardState {
    /// The field that the current step edits; none outside the text steps.
    pub open spec fn active_text(&self) -> Seq<char> {
        match self.step {
            WizardStep::Source => self.source@,
            WizardStep::Consumer => self.consumer@,
            WizardStep::Target => self.target@,
            _ => seq![],
        }
    }

    /// A wizard at its first step, with example paths filled in.
    pub fn new() -> (r: WizardState)
        ensures
            r.step == WizardStep::LinkType,
            r.link_type == 0,
            r.source@ == "./packages/my-lib"@,
            r.consumer@ == "../my-app"@,
            r.target@ == "./lib/shared"@,
            r.start_daemon,
            r.error is None,
    {
        WizardState {
            step: WizardStep::LinkType,
            link_type: 0,
            source: "./packages/my-lib".to_owned(),
            consumer: "../my-app".to_owned(),
            target: "./lib/shared".to_owned(),
            start_daemon: true,
            error: None,
        }
    }

    /// The number of the current step, from 1 to 5.
    pub fn step_index(&self) -> (r: usize)
        ensures
            r == step_number(self.step),
            1 <= r <= 5,
    {
        match self.step {
            WizardStep::LinkType => 1,
            WizardStep::Source => 2,
            WizardStep::Consumer => 3,
            WizardStep::Target => 4,
            WizardStep::Confirm => 5,
        }
    }

    /// The text of the field that the current step edits.
    pub fn active_field(&self) -> (r: &str)
        ensures
            r@ == self.active_text(),
    {
        match self.step {
            WizardStep::Source => self.source.as_str(),
            WizardStep::Consumer => self.consumer.as_str(),
            WizardStep::Target => self.target.as_str(),
            _ => {
                proof {
                    reveal_strlit("");
                }
                ""
            },
        }
    }

    /// The field that the current step edits (the source outside the text
    /// steps), to be changed in place.
    pub fn active_field_mut(&mut self) -> (r: &mut String)
        ensures
            match old(self).step {
                WizardStep::Consumer => {
                    &&& *r == old(self).consumer
                    &&& *final(self) == WizardState { consumer: *final(r), ..*old(self) }
                },
                WizardStep::Target => {
                    &&& *r == old(self).target
                    &&& *final(self) == WizardState { target: *final(r), ..*old(self) }
                },
                _ => {
                    &&& *r == old(self).source
                    &&& *final(self) == WizardState { source: *final(r), ..*old(self) }
                },
            },
    {
        match self.step {
            WizardStep::Consumer => &mut self.consumer,
            WizardStep::Target => &mut self.target,
            _ => &mut self.source,
        }
    }

    /// Goes to the next step and forgets the last error.
    pub fn next(&mut self)
        ensures
            final(self).step == step_after(old(self).step, old(self).link_type),
            final(self).error is None,
            final(self).link_type == old(self).link_type,
            final(self).source == old(self).source,
            final(self).consumer == old(self).consumer,
            final(self).target == old(self).target,
            final(self).start_daemon == old(self).start_daemon,
    {
        self.error = None;
        self.step = match self.step {
            WizardStep::LinkType => WizardStep::Source,
            WizardStep::Source => WizardStep::Consumer,
            WizardStep::Consumer => if self.link_type == CUSTOM_LINK_TYPE {
                WizardStep::Target
            } else {
                WizardStep::Confirm
            },
            WizardStep::Target => WizardStep::Confirm,
            WizardStep::Confirm => WizardStep::Confirm,
        };
    }

    /// Goes to the previous step and forgets the last error.
    pub fn back(&mut self)
        ensures
            final(self).step == step_before(old(self).step, old(self).link_type),
            final(self).error is None,
            final(self).link_type == old(self).link_type,
            final(self).source == old(self).source,
            final(self).consumer == old(self).consumer,
            final(self).target == old(self).target,
            final(self).start_daemon == old(self).start_daemon,
    {
        self.error = None;
        self.step = match self.step {
            WizardStep::LinkType => WizardStep::LinkType,
            WizardStep::Source => WizardStep::LinkType,
            WizardStep::Consumer => WizardStep::Source,
            WizardStep::Target => WizardStep::Consumer,
            WizardStep::Confirm => if self.link_type == CUSTOM_LINK_TYPE {
                WizardStep::Target
            } else {
                WizardStep::Consumer
            },
        };
    }

    /// The ecosystem of the chosen link type.
    pub fn ecosystem(&self) -> (r: Ecosystem)
        ensures
            r == type_ecosystem(self.link_type),
    {
        if self.link_type == 1 {
            Ecosystem::Composer
        } else if self.link_type == CUSTOM_LINK_TYPE {
            Ecosystem::Custom
        } else {
            Ecosystem::Npm
        }
    }
}

/// Whether `f` is `o` with the text of the field that its step edits set
/// to `text`, everything else as it was.
pub open spec fn edited(o: WizardState, f: WizardState, text: Seq<char>) -> bool {
    &&& f.step == o.step
    &&& f.link_type == o.link_type
    &&& f.error == o.error
    &&& f.start_daemon == o.start_daemon
    &&& match o.step {
        WizardStep::Consumer => f.consumer@ == text && f.source == o.source && f.target == o.target,
        WizardStep::Target => f.target@ == text && f.source == o.source && f.consumer == o.consumer,
        _ => f.source@ == text && f.consumer == o.consumer && f.target == o.target,
    }
}

/// What the wizard collected, as a value of the specification.
pub struct WizardResultView {
    pub source: Seq<char>,
    pub consumer: Seq<char>,
    pub target: Option<Seq<char>>,
    pub ecosystem: Ecosystem,
    pub start_daemon: bool,
}

impl View for WizardResult {
    type V = WizardResultView;

    open spec fn view(&self) -> WizardResultView {
        WizardResultView {
            source: self.source@,
            consumer: self.consumer@,
            target: opt_str(self.target),
            ecosystem: self.ecosystem,
            start_daemon: self.start_daemon,
        }
    }
}

/// The target that the wizard asks the link for: the target field, for a
/// custom link only.
pub open spec fn wizard_target(s: WizardState) -> Option<Seq<char>> {
    if s.link_type == CUSTOM_LINK_TYPE {
        Some(s.target@)
    } else {
        None
    }
}

/// What finishing the wizard in state `s` gives: the link must resolve, and
/// a chosen target must be apart from the source.
pub open spec fn finish_result(fs: FsView, s: WizardState, roots: Seq<Seq<char>>) -> Result<WizardResultView, ErrView> {
    let target = wizard_target(s);
    let done = WizardResultView {
        source: s.source@,
        consumer: s.consumer@,
        target,
        ecosystem: type_ecosystem(s.link_type),
        start_daemon: s.start_daemon,
    };
    match link_result(fs, s.source@, s.consumer@, Some(type_ecosystem(s.link_type)), target, roots) {
        Err(e) => Err(e),
        Ok(_) => match target {
            Some(t) => match link_paths_check(s.source@, t) {
                Err(e) => Err(e),
                Ok(_) => Ok(done),
            },
            None => Ok(done),
        },
    }
}

/// The text with its last character removed, as `String::pop` leaves it.
pub open spec fn popped(t: Seq<char>) -> Seq<char> {
    if t.len() > 0 { t.drop_last() } else { t }
}

impl WizardState {
    /// Checks the collected paths and hands them over: the link must resolve
    /// (`global_roots` are the pnpm store roots), and a chosen target must
    /// be apart from the source.
    pub fn try_finish(&self, fs: &FsView, global_roots: &Vec<String>) -> (r: Result<WizardResult, LinkdError>)
        ensures
            match r {
                Ok(w) => finish_result(*fs, *self, str_views(global_roots@)) == Ok::<WizardResultView, ErrView>(w@),
                Err(e) => finish_result(*fs, *self, str_views(global_roots@)) == Err::<WizardResultView, ErrView>(e@),
            },
    {
        let eco = self.ecosystem();
        let target: Option<&str> = if self.link_type == CUSTOM_LINK_TYPE {
            Some(self.target.as_str())
        } else {
            None
        };
        match resolve_link(fs, self.source.as_str(), self.consumer.as_str(), Some(eco), target, global_roots) {
            Err(e) => {
                return Err(e);
            },
            Ok(_) => {},
        }
        match target {
            Some(t) => match validate_link_paths(self.source.as_str(), t) {
                Err(e) => {
                    return Err(e);
                },
                Ok(_) => {},
            },
            None => {},
        }
        let owned_target = match target {
            Some(t) => Some(t.to_owned()),
            None => None,
        };
        Ok(WizardResult {
            source: self.source.clone(),
            consumer: self.consumer.clone(),
            target: owned_target,
            ecosystem: eco,
            start_daemon: self.start_daemon,
        })
    }

    /// Reacts to a key. In the last step Enter tries to finish; an error is
    /// kept for display and the wizard goes on.
    pub fn handle_key(&mut self, key: WizardKey, fs: &FsView, global_roots: &Vec<String>) -> (r: WizardOutcome)
        ensures
            ({
                let o = *old(self);
                let f = *final(self);
                let unchanged = f == o;
                if key == WizardKey::CtrlC {
                    r is Cancelled && unchanged
                } else {
                    match o.step {
                        WizardStep::LinkType => match key {
                            WizardKey::Up | WizardKey::Char('k') => r is Continue && f == WizardState {
                                link_type: if o.link_type > 0 { (o.link_type - 1) as usize } else { 0 },
                                ..o
                            },
                            WizardKey::Down | WizardKey::Char('j') => r is Continue && f == WizardState {
                                link_type: if o.link_type + 1 <= 2 { (o.link_type + 1) as usize } else { 2 },
                                ..o
                            },
                            WizardKey::Enter => r is Continue && f == WizardState {
                                step: step_after(o.step, o.link_type),
                                error: None,
                                ..o
                            },
                            WizardKey::Esc => r is Cancelled && unchanged,
                            _ => r is Continue && unchanged,
                        },
                        WizardStep::Confirm => match key {
                            WizardKey::Enter => match finish_result(*fs, o, str_views(global_roots@)) {
                                Ok(v) => {
                                    &&& r matches WizardOutcome::Finished(w) && w@ == v
                                    &&& unchanged
                                },
                                Err(e) => {
                                    &&& r is Continue
                                    &&& f.error matches Some(x) && x@ == e
                                    &&& f.step == o.step && f.link_type == o.link_type
                                    &&& f.source == o.source && f.consumer == o.consumer
                                    &&& f.target == o.target && f.start_daemon == o.start_daemon
                                },
                            },
                            WizardKey::Esc => r is Cancelled && unchanged,
                            WizardKey::Left | WizardKey::AltLeft | WizardKey::Char('h') => r is Continue && f == WizardState {
                                step: step_before(o.step, o.link_type),
                                error: None,
                                ..o
                            },
                            WizardKey::Char('d') => r is Continue && f == WizardState { start_daemon: !o.start_daemon, ..o },
                            _ => r is Continue && unchanged,
                        },
                        _ => match key {
                            WizardKey::Enter => r is Continue && f == WizardState {
                                step: step_after(o.step, o.link_type),
                                error: None,
                                ..o
                            },
                            WizardKey::Esc => r is Cancelled && unchanged,
                            WizardKey::AltLeft => r is Continue && f == WizardState {
                                step: step_before(o.step, o.link_type),
                                error: None,
                                ..o
                            },
                            WizardKey::Backspace => r is Continue && edited(o, f, popped(o.active_text())),
                            WizardKey::Char(c) => r is Continue && edited(o, f, o.active_text().push(c)),
                            _ => r is Continue && unchanged,
                        },
                    }
                }
            }),
    {
        if key == WizardKey::CtrlC {
            return WizardOutcome::Cancelled;
        }
        match self.step {
            WizardStep::LinkType => match key {
                WizardKey::Up | WizardKey::Char('k') => {
                    if self.link_type > 0 {
                        self.link_type = self.link_type - 1;
                    }
                    WizardOutcome::Continue
                },
                WizardKey::Down | WizardKey::Char('j') => {
                    if self.link_type < 2 {
                        self.link_type = self.link_type + 1;
                    } else {
                        self.link_type = 2;
                    }
                    WizardOutcome::Continue
                },
                WizardKey::Enter => {
                    self.next();
                    WizardOutcome::Continue
                },
                WizardKey::Esc => WizardOutcome::Cancelled,
                _ => WizardOutcome::Continue,
            },
            WizardStep::Confirm => match key {
                WizardKey::Enter => match self.try_finish(fs, global_roots) {
                    Ok(w) => WizardOutcome::Finished(w),
                    Err(e) => {
                        self.error = Some(e);
                        WizardOutcome::Continue
                    },
                },
                WizardKey::Esc => WizardOutcome::Cancelled,
                WizardKey::Left | WizardKey::AltLeft | WizardKey::Char('h') => {
                    self.back();
                    WizardOutcome::Continue
                },
                WizardKey::Char('d') => {
                    self.start_daemon = !self.start_daemon;
                    WizardOutcome::Continue
                },
                _ => WizardOutcome::Continue,
            },
            _ => match key {
                WizardKey::Enter => {
                    self.next();
                    WizardOutcome::Continue
                },
                WizardKey::Esc => WizardOutcome::Cancelled,
                WizardKey::AltLeft => {
                    self.back();
                    WizardOutcome::Continue
                },
                WizardKey::Backspace => {
                    let field = self.active_field_mut();
                    let mut v = to_chars(field.as_str());
                    if v.len() > 0 {
                        v.pop();
                    }
                    *field = from_chars(&v);
                    WizardOutcome::Continue
                },
                WizardKey::Char(c) => {
                    let field = self.active_field_mut();
                    let mut v = to_chars(field.as_str());
                    v.push(c);
                    *field = from_chars(&v);
                    WizardOutcome::Continue
                },
                _ => WizardOutcome::Continue,
            },
        }
    }
}

/// Going back undoes going forward, from every step but the last; the
/// target step is only reached for custom links.
pub proof fn lemma_back_undoes_next(step: WizardStep, link_type: usize)
    requires
        step != WizardStep::Confirm,
        step == WizardStep::Target ==> link_type == CUSTOM_LINK_TYPE,
    ensures
        step_before(step_after(step, link_type), link_type) == step,
{
}

/// Going forward undoes going back, from every step but the first.
pub proof fn lemma_next_undoes_back(step: WizardStep, link_type: usize)
    requires
        step != WizardStep::LinkType,
        step == WizardStep::Target ==> link_type == CUSTOM_LINK_TYPE,
    ensures
        step_after(step_before(step, link_type), link_type) == step,
{
}

/// The target is asked for exactly when the link is a custom one.
pub proof fn lemma_target_step_only_custom(link_type: usize)
    ensures
        (step_after(WizardStep::Consumer, link_type) == WizardStep::Target) == (link_type == CUSTOM_LINK_TYPE),
        (type_ecosystem(link_type) == Ecosystem::Custom) == (link_type == CUSTOM_LINK_TYPE),
{
}

} // verus!
