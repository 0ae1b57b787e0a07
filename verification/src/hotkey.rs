//! The backend-agnostic shortcut facade.
//!
//! One manager owns the binding settings, the set of suspended binding
//! ids, and a model of the direct-grab hook table: which trigger is
//! grabbed for which binding id.  On the direct-grab backend a
//! registration installs a hook once its trigger parses; on the portal
//! backend the host owns the live key mapping, so unregistration and
//! suspension are local bookkeeping.  The caller mirrors every hook-table
//! change onto the host's grab API.

use vstd::prelude::*;

use crate::backend::{detect_backend_for_platform, spec_detect_backend_platform, DisplayServerInfo, ShortcutBackend};
use crate::events::{ShortcutEvent, ShortcutPhase};
use crate::settings::{
    lemma_binding_index_props, lemma_binding_index_same_ids, spec_binding_index, spec_binding_of,
    AppSettings, ShortcutBinding,
};
use crate::text::str_eq;
use crate::trigger::{parse_trigger, spec_parse_trigger};

verus! {

/// One installed direct-grab hook: pressing `trigger` reports `binding_id`.
#[derive(Debug, Clone)]
pub struct HookEntry {
    pub binding_id: String,
    pub trigger: String,
}

/// The hook table as the contracts see it: `(trigger, binding id)` pairs.
pub type HookView = Seq<(Seq<char>, Seq<char>)>;

/// The first position holding trigger `t`, if any.
pub open spec fn hook_index(hooks: HookView, t: Seq<char>) -> Option<int>
    decreases hooks.len(),
{
    if hooks.len() == 0 {
        None
    } else if hooks[0].0 == t {
        Some(0int)
    } else {
        match hook_index(hooks.skip(1), t) {
            Some(i) => Some(i + 1),
            None => None,
        }
    }
}

/// The binding id hooked on trigger `t`, if any.
pub open spec fn hook_lookup(hooks: HookView, t: Seq<char>) -> Option<Seq<char>> {
    match hook_index(hooks, t) {
        Some(i) => Some(hooks[i].1),
        None => None,
    }
}

/// A position returned by `hook_index` is in range, holds `t`, and is the
/// first such position.
pub proof fn lemma_hook_index_props(hooks: HookView, t: Seq<char>)
    ensures
        match hook_index(hooks, t) {
            Some(i) => 0 <= i < hooks.len() && hooks[i].0 == t && (forall|j: int|
                0 <= j < i ==> hooks[j].0 != t),
            None => forall|j: int| 0 <= j < hooks.len() ==> hooks[j].0 != t,
        },
    decreases hooks.len(),
{
    if hooks.len() > 0 && hooks[0].0 != t {
        let rest = hooks.skip(1);
        lemma_hook_index_props(rest, t);
        match hook_index(rest, t) {
            Some(i) => {
                assert(hooks[i + 1] == rest[i]);
                assert forall|j: int| 0 <= j < i + 1 implies hooks[j].0 != t by {
                    if j > 0 {
                        assert(hooks[j] == rest[j - 1]);
                    }
                }
            },
            None => {
                assert forall|j: int| 0 <= j < hooks.len() implies hooks[j].0 != t by {
                    if j > 0 {
                        assert(hooks[j] == rest[j - 1]);
                    }
                }
            },
        }
    }
}

/// Installing a hook: an existing hook on the same trigger is replaced,
/// otherwise the hook is appended.
pub open spec fn spec_hook_insert(hooks: HookView, t: Seq<char>, id: Seq<char>) -> HookView {
    match hook_index(hooks, t) {
        Some(i) => hooks.update(i, (t, id)),
        None => hooks.push((t, id)),
    }
}

/// Removing a hook by trigger; absent triggers leave the table unchanged.
pub open spec fn spec_hook_remove(hooks: HookView, t: Seq<char>) -> HookView {
    match hook_index(hooks, t) {
        Some(i) => hooks.remove(i),
        None => hooks,
    }
}

/// Installing a hook keeps triggers pairwise distinct.
pub proof fn lemma_insert_preserves_unique(hv0: HookView, t: Seq<char>, id: Seq<char>)
    requires
        forall|i: int, j: int| 0 <= i < j < hv0.len() ==> hv0[i].0 != hv0[j].0,
    ensures
        ({
            let hv1 = spec_hook_insert(hv0, t, id);
            forall|i: int, j: int| 0 <= i < j < hv1.len() ==> hv1[i].0 != hv1[j].0
        }),
{
    lemma_hook_index_props(hv0, t);
    let hv1 = spec_hook_insert(hv0, t, id);
    match hook_index(hv0, t) {
        Some(k) => {
            assert forall|i: int, j: int|
                0 <= i < j < hv1.len() implies hv1[i].0 != hv1[j].0 by {
                assert(hv0[k].0 == t);
                assert(hv1[i].0 == hv0[i].0);
                assert(hv1[j].0 == hv0[j].0);
            }
        },
        None => {
            assert forall|i: int, j: int|
                0 <= i < j < hv1.len() implies hv1[i].0 != hv1[j].0 by {
                if j < hv0.len() {
                    assert(hv1[i].0 == hv0[i].0);
                    assert(hv1[j].0 == hv0[j].0);
                } else {
                    assert(hv1[j].0 == t);
                    assert(hv1[i].0 == hv0[i].0);
                    assert(hv0[i].0 != t);
                }
            }
        },
    }
}

/// Removing a hook keeps triggers pairwise distinct.
pub proof fn lemma_remove_preserves_unique(hv0: HookView, t: Seq<char>)
    requires
        forall|i: int, j: int| 0 <= i < j < hv0.len() ==> hv0[i].0 != hv0[j].0,
    ensures
        ({
            let hv1 = spec_hook_remove(hv0, t);
            forall|i: int, j: int| 0 <= i < j < hv1.len() ==> hv1[i].0 != hv1[j].0
        }),
{
    lemma_hook_index_props(hv0, t);
    let hv1 = spec_hook_remove(hv0, t);
    match hook_index(hv0, t) {
        Some(k) => {
            assert forall|i: int, j: int|
                0 <= i < j < hv1.len() implies hv1[i].0 != hv1[j].0 by {
                let i0 = if i < k {
                    i
                } else {
                    i + 1
                };
                let j0 = if j < k {
                    j
                } else {
                    j + 1
                };
                assert(hv1[i].0 == hv0[i0].0);
                assert(hv1[j].0 == hv0[j0].0);
            }
        },
        None => {},
    }
}

/// A binding takes part in registration when its stored trigger is
/// non-empty; it registers when that trigger also parses.
pub open spec fn spec_registrable(b: ShortcutBinding) -> bool {
    b.current_binding@.len() > 0 && spec_parse_trigger(b.current_binding@) is Some
}

/// The hook table after registering the bindings in order.
pub open spec fn spec_register_fold(hooks: HookView, bs: Seq<ShortcutBinding>) -> HookView
    decreases bs.len(),
{
    if bs.len() == 0 {
        hooks
    } else {
        let h = if spec_registrable(bs[0]) {
            spec_hook_insert(hooks, bs[0].current_binding@, bs[0].id@)
        } else {
            hooks
        };
        spec_register_fold(h, bs.skip(1))
    }
}

/// How many bindings have a non-empty trigger.
pub open spec fn spec_num_nonempty(bs: Seq<ShortcutBinding>) -> nat
    decreases bs.len(),
{
    if bs.len() == 0 {
        0nat
    } else {
        (if bs[0].current_binding@.len() > 0 {
            1nat
        } else {
            0nat
        }) + spec_num_nonempty(bs.skip(1))
    }
}

/// How many bindings register (non-empty and parseable trigger).
pub open spec fn spec_num_registrable(bs: Seq<ShortcutBinding>) -> nat
    decreases bs.len(),
{
    if bs.len() == 0 {
        0nat
    } else {
        (if spec_registrable(bs[0]) {
            1nat
        } else {
            0nat
        }) + spec_num_registrable(bs.skip(1))
    }
}

/// Folding one more binding onto the end processes it last.
pub proof fn lemma_register_fold_push(hooks: HookView, bs: Seq<ShortcutBinding>, b: ShortcutBinding)
    ensures
        spec_register_fold(hooks, bs.push(b)) == (if spec_registrable(b) {
            spec_hook_insert(spec_register_fold(hooks, bs), b.current_binding@, b.id@)
        } else {
            spec_register_fold(hooks, bs)
        }),
    decreases bs.len(),
{
    if bs.len() == 0 {
        let e = Seq::<ShortcutBinding>::empty();
        assert(bs.push(b)[0] == b);
        assert(bs.push(b).skip(1) =~= e);
        assert(spec_register_fold(hooks, e) == hooks);
        assert(spec_register_fold(
            spec_hook_insert(hooks, b.current_binding@, b.id@),
            e,
        ) == spec_hook_insert(hooks, b.current_binding@, b.id@));
    } else {
        assert(bs.push(b)[0] == bs[0]);
        assert(bs.push(b).skip(1) =~= bs.skip(1).push(b));
        let h = if spec_registrable(bs[0]) {
            spec_hook_insert(hooks, bs[0].current_binding@, bs[0].id@)
        } else {
            hooks
        };
        lemma_register_fold_push(h, bs.skip(1), b);
    }
}

/// Counting one more binding onto the end counts it last.
pub proof fn lemma_counts_push(bs: Seq<ShortcutBinding>, b: ShortcutBinding)
    ensures
        spec_num_nonempty(bs.push(b)) == spec_num_nonempty(bs) + (if b.current_binding@.len() > 0 {
            1nat
        } else {
            0nat
        }),
        spec_num_registrable(bs.push(b)) == spec_num_registrable(bs) + (if spec_registrable(b) {
            1nat
        } else {
            0nat
        }),
    decreases bs.len(),
{
    if bs.len() == 0 {
        let e = Seq::<ShortcutBinding>::empty();
        assert(bs.push(b)[0] == b);
        assert(bs.push(b).skip(1) =~= e);
        assert(spec_num_nonempty(e) == 0);
        assert(spec_num_registrable(e) == 0);
    } else {
        assert(bs.push(b)[0] == bs[0]);
        assert(bs.push(b).skip(1) =~= bs.skip(1).push(b));
        lemma_counts_push(bs.skip(1), b);
    }
}

/// The aggregated failure report of a registration pass: one line per
/// binding whose non-empty trigger does not parse, in binding order.
pub open spec fn spec_failure_report(bs: Seq<ShortcutBinding>) -> Seq<char>
    decreases bs.len(),
{
    if bs.len() == 0 {
        Seq::<char>::empty()
    } else {
        let head = if bs[0].current_binding@.len() > 0 && spec_parse_trigger(
            bs[0].current_binding@,
        ) is None {
            "Invalid shortcut: "@ + bs[0].current_binding@ + "; "@
        } else {
            Seq::<char>::empty()
        };
        head + spec_failure_report(bs.skip(1))
    }
}

/// Reporting one more binding onto the end reports it last.
pub proof fn lemma_failure_report_push(bs: Seq<ShortcutBinding>, b: ShortcutBinding)
    ensures
        spec_failure_report(bs.push(b)) == spec_failure_report(bs) + (if b.current_binding@.len()
            > 0 && spec_parse_trigger(b.current_binding@) is None {
            "Invalid shortcut: "@ + b.current_binding@ + "; "@
        } else {
            Seq::<char>::empty()
        }),
    decreases bs.len(),
{
    let tail = if b.current_binding@.len() > 0 && spec_parse_trigger(b.current_binding@) is None {
        "Invalid shortcut: "@ + b.current_binding@ + "; "@
    } else {
        Seq::<char>::empty()
    };
    if bs.len() == 0 {
        let e = Seq::<ShortcutBinding>::empty();
        assert(bs.push(b)[0] == b);
        assert(bs.push(b).skip(1) =~= e);
        assert(spec_failure_report(e) == Seq::<char>::empty());
        assert(tail + Seq::<char>::empty() =~= tail);
        assert(Seq::<char>::empty() + tail =~= tail);
    } else {
        assert(bs.push(b)[0] == bs[0]);
        assert(bs.push(b).skip(1) =~= bs.skip(1).push(b));
        lemma_failure_report_push(bs.skip(1), b);
        let head = if bs[0].current_binding@.len() > 0 && spec_parse_trigger(
            bs[0].current_binding@,
        ) is None {
            "Invalid shortcut: "@ + bs[0].current_binding@ + "; "@
        } else {
            Seq::<char>::empty()
        };
        assert(head + (spec_failure_report(bs.skip(1)) + tail) =~= (head + spec_failure_report(
            bs.skip(1),
        )) + tail);
    }
}

/// Whether `id` occurs in a sequence of id views.
pub open spec fn spec_id_in(v: Seq<Seq<char>>, id: Seq<char>) -> bool {
    exists|k: int| 0 <= k < v.len() && v[k] == id
}

/// Manages global keyboard shortcuts: registration, unregistration,
/// updates, and temporary suspension, over whichever backend is active.
pub struct HotkeyManager {
    pub backend: ShortcutBackend,
    pub settings: AppSettings,
    pub suspended_bindings: Vec<String>,
    pub hooks: Vec<HookEntry>,
}

impl HotkeyManager {
    /// The hook table as trigger/id view pairs.
    pub open spec fn hooks_view(&self) -> HookView {
        Seq::new(self.hooks@.len(), |i: int| (self.hooks@[i].trigger@, self.hooks@[i].binding_id@))
    }

    /// The suspended binding ids as views.
    pub open spec fn suspended_view(&self) -> Seq<Seq<char>> {
        Seq::new(self.suspended_bindings@.len(), |i: int| self.suspended_bindings@[i]@)
    }

    /// Well-formed: unique binding ids, unique hook triggers, and no
    /// binding id suspended twice.
    pub open spec fn wf(&self) -> bool {
        &&& self.settings.wf()
        &&& forall|i: int, j: int|
            0 <= i < j < self.hooks_view().len() ==> self.hooks_view()[i].0
                != self.hooks_view()[j].0
        &&& forall|i: int, j: int|
            0 <= i < j < self.suspended_view().len() ==> self.suspended_view()[i]
                != self.suspended_view()[j]
    }

    /// A fresh manager: no backend chosen, nothing suspended, no hooks.
    pub fn new(settings: AppSettings) -> (r: HotkeyManager)
        requires
            settings.wf(),
        ensures
            r.wf(),
            r.backend == ShortcutBackend::Unavailable,
            r.settings == settings,
            r.suspended_view() =~= Seq::<Seq<char>>::empty(),
            r.hooks_view() =~= Seq::<(Seq<char>, Seq<char>)>::empty(),
    {
        HotkeyManager {
            backend: ShortcutBackend::Unavailable,
            settings,
            suspended_bindings: Vec::new(),
            hooks: Vec::new(),
        }
    }

    /// The backend chosen by the latest registration pass.
    pub fn get_backend(&self) -> (r: ShortcutBackend)
        ensures
            r == self.backend,
    {
        self.backend
    }

    /// The position of the hook on `trigger`, if one is installed.
    fn hook_position(&self, trigger: &str) -> (r: Option<usize>)
        ensures
            r is Some <==> hook_index(self.hooks_view(), trigger@) is Some,
            r matches Some(k) ==> hook_index(self.hooks_view(), trigger@) == Some(k as int) && k
                < self.hooks@.len(),
    {
        let n = self.hooks.len();
        for k in 0..n
            invariant
                n == self.hooks@.len(),
                forall|j: int| 0 <= j < k ==> self.hooks_view()[j].0 != trigger@,
        {
            if str_eq(self.hooks[k].trigger.as_str(), trigger) {
                proof {
                    assert(self.hooks_view()[k as int].0 == trigger@);
                    lemma_hook_index_props(self.hooks_view(), trigger@);
                }
                return Some(k);
            }
        }
        proof {
            lemma_hook_index_props(self.hooks_view(), trigger@);
        }
        None
    }

    /// Registers a single trigger for a binding on the direct-grab
    /// backend.  Fails exactly when the trigger string does not parse;
    /// on success the hook table maps the trigger to the binding id.
    pub fn register_shortcut(&mut self, id: &str, shortcut_str: &str) -> (r: Result<(), String>)
        requires
            old(self).wf(),
        ensures
            final(self).wf(),
            final(self).backend == old(self).backend,
            final(self).settings == old(self).settings,
            final(self).suspended_view() == old(self).suspended_view(),
            match spec_parse_trigger(shortcut_str@) {
                Some(_) => r is Ok && final(self).hooks_view() == spec_hook_insert(
                    old(self).hooks_view(),
                    shortcut_str@,
                    id@,
                ),
                None => (r matches Err(e) && e@ == "Invalid shortcut: "@ + shortcut_str@) && final(self).hooks_view() == old(self).hooks_view(),
            },
    {
        match parse_trigger(shortcut_str) {
            Err(e) => {
                assert(final(self).hooks_view() =~= old(self).hooks_view());
                assert(final(self).suspended_view() =~= old(self).suspended_view());
                Err(e)
            },
            Ok(_combo) => {
                let entry = HookEntry {
                    binding_id: String::from_str(id),
                    trigger: String::from_str(shortcut_str),
                };
                proof {
                    lemma_hook_index_props(self.hooks_view(), shortcut_str@);
                }
                match self.hook_position(shortcut_str) {
                    Some(k) => {
                        self.hooks.set(k, entry);
                        proof {
                            assert(self.hooks_view() =~= old(self).hooks_view().update(
                                k as int,
                                (shortcut_str@, id@),
                            ));
                            assert(self.hooks_view() == spec_hook_insert(
                                old(self).hooks_view(),
                                shortcut_str@,
                                id@,
                            ));
                        }
                    },
                    None => {
                        self.hooks.push(entry);
                        proof {
                            assert(self.hooks_view() =~= old(self).hooks_view().push(
                                (shortcut_str@, id@),
                            ));
                            assert(self.hooks_view() == spec_hook_insert(
                                old(self).hooks_view(),
                                shortcut_str@,
                                id@,
                            ));
                        }
                    },
                }
                proof {
                    assert(self.suspended_view() =~= old(self).suspended_view());
                    lemma_insert_preserves_unique(old(self).hooks_view(), shortcut_str@, id@);
                }
                Ok(())
            },
        }
    }

    /// Removes the hook for a trigger on the direct-grab backend.  On the
    /// portal backend this is always a local no-op returning `Ok`: the
    /// host owns the live key mapping.  Fails exactly when the trigger
    /// string does not parse; a hook that is already absent is fine.
    pub fn unregister_shortcut(&mut self, shortcut_str: &str) -> (r: Result<(), String>)
        requires
            old(self).wf(),
        ensures
            final(self).wf(),
            final(self).backend == old(self).backend,
            final(self).settings == old(self).settings,
            final(self).suspended_view() == old(self).suspended_view(),
            old(self).backend == ShortcutBackend::WaylandPortal ==> r is Ok && final(self).hooks_view() == old(self).hooks_view(),
            old(self).backend != ShortcutBackend::WaylandPortal ==> match spec_parse_trigger(
                shortcut_str@,
            ) {
                Some(_) => r is Ok && final(self).hooks_view() == spec_hook_remove(
                    old(self).hooks_view(),
                    shortcut_str@,
                ),
                None => (r matches Err(e) && e@ == "Invalid shortcut: "@ + shortcut_str@) && final(self).hooks_view() == old(self).hooks_view(),
            },
    {
        if self.get_backend() == ShortcutBackend::WaylandPortal {
            assert(final(self).hooks_view() =~= old(self).hooks_view());
            assert(final(self).suspended_view() =~= old(self).suspended_view());
            return Ok(());
        }
        match parse_trigger(shortcut_str) {
            Err(e) => {
                assert(final(self).hooks_view() =~= old(self).hooks_view());
                assert(final(self).suspended_view() =~= old(self).suspended_view());
                Err(e)
            },
            Ok(_combo) => {
                proof {
                    lemma_hook_index_props(self.hooks_view(), shortcut_str@);
                }
                match self.hook_position(shortcut_str) {
                    Some(k) => {
                        self.hooks.remove(k);
                        proof {
                            assert(self.hooks_view() =~= old(self).hooks_view().remove(k as int));
                            assert(self.hooks_view() == spec_hook_remove(
                                old(self).hooks_view(),
                                shortcut_str@,
                            ));
                        }
                    },
                    None => {
                        proof {
                            assert(self.hooks_view() =~= old(self).hooks_view());
                            assert(self.hooks_view() == spec_hook_remove(
                                old(self).hooks_view(),
                                shortcut_str@,
                            ));
                        }
                    },
                }
                proof {
                    assert(self.suspended_view() =~= old(self).suspended_view());
                    lemma_remove_preserves_unique(old(self).hooks_view(), shortcut_str@);
                }
                Ok(())
            },
        }
    }

    /// Registers every binding with a non-empty trigger on the
    /// direct-grab backend.  Partial success is success: the result is an
    /// error only when bindings existed to register and none registered.
    pub fn register_x11_shortcuts(&mut self) -> (r: Result<(), String>)
        requires
            old(self).wf(),
        ensures
            final(self).wf(),
            final(self).backend == old(self).backend,
            final(self).settings == old(self).settings,
            final(self).suspended_view() == old(self).suspended_view(),
            final(self).hooks_view() == spec_register_fold(
                old(self).hooks_view(),
                old(self).settings.bindings@,
            ),
            r is Ok <==> (spec_num_nonempty(old(self).settings.bindings@) == 0
                || spec_num_registrable(old(self).settings.bindings@) > 0),
            r matches Err(e) ==> e@ == "All shortcut registrations failed: "@
                + spec_failure_report(old(self).settings.bindings@),
    {
        let ghost bs = self.settings.bindings@;
        let ghost h0 = self.hooks_view();
        let mut total: usize = 0;
        let mut successful: usize = 0;
        let mut errors: String = String::new();
        let n = self.settings.bindings.len();
        assert(bs.take(0) =~= Seq::<ShortcutBinding>::empty());
        for k in 0..n
            invariant
                old(self).wf(),
                self.wf(),
                n == self.settings.bindings@.len(),
                self.settings == old(self).settings,
                self.backend == old(self).backend,
                self.suspended_view() == old(self).suspended_view(),
                bs == old(self).settings.bindings@,
                h0 == old(self).hooks_view(),
                self.hooks_view() == spec_register_fold(h0, bs.take(k as int)),
                total == spec_num_nonempty(bs.take(k as int)),
                successful == spec_num_registrable(bs.take(k as int)),
                errors@ == spec_failure_report(bs.take(k as int)),
                total <= k,
                successful <= total,
        {
            let ghost prefix = bs.take(k as int);
            proof {
                assert(bs.take(k + 1) =~= prefix.push(bs[k as int]));
                lemma_register_fold_push(h0, prefix, bs[k as int]);
                lemma_counts_push(prefix, bs[k as int]);
                lemma_failure_report_push(prefix, bs[k as int]);
            }
            let b_id = self.settings.bindings[k].id.clone();
            let b_trigger = self.settings.bindings[k].current_binding.clone();
            if !b_trigger.as_str().is_empty() {
                total = total + 1;
                match self.register_shortcut(b_id.as_str(), b_trigger.as_str()) {
                    Ok(()) => {
                        successful = successful + 1;
                        proof {
                            assert(errors@ + Seq::<char>::empty() =~= errors@);
                        }
                    },
                    Err(e) => {
                        errors.append(e.as_str());
                        errors.append("; ");
                        proof {
                            assert(spec_failure_report(prefix) + ("Invalid shortcut: "@
                                + bs[k as int].current_binding@ + "; "@) =~= ((spec_failure_report(
                                prefix,
                            ) + ("Invalid shortcut: "@ + bs[k as int].current_binding@)) + "; "@));
                        }
                    },
                }
            } else {
                proof {
                    assert(errors@ + Seq::<char>::empty() =~= errors@);
                }
            }
        }
        proof {
            assert(bs.take(n as int) =~= bs);
        }
        if total > 0 && successful == 0 {
            Err(String::from_str("All shortcut registrations failed: ").concat(errors.as_str()))
        } else {
            Ok(())
        }
    }

    /// Detects and stores the backend, then registers every binding with
    /// a non-empty trigger.  On the portal backend registration is
    /// advisory and proceeds asynchronously, so the call itself succeeds
    /// and the hook table is untouched; with no backend at all the call
    /// fails.
    pub fn register_all(&mut self, is_linux: bool, info: &DisplayServerInfo) -> (r: Result<
        (),
        String,
    >)
        requires
            old(self).wf(),
        ensures
            final(self).wf(),
            final(self).backend == spec_detect_backend_platform(
                is_linux,
                info.is_wayland,
                info.is_x11,
            ),
            final(self).settings == old(self).settings,
            final(self).suspended_view() == old(self).suspended_view(),
            final(self).backend == ShortcutBackend::X11 ==> final(self).hooks_view()
                == spec_register_fold(old(self).hooks_view(), old(self).settings.bindings@) && (
            r is Ok <==> (spec_num_nonempty(old(self).settings.bindings@) == 0
                || spec_num_registrable(old(self).settings.bindings@) > 0)) && (
            r matches Err(e) ==> e@ == "All shortcut registrations failed: "@
                + spec_failure_report(old(self).settings.bindings@)),
            final(self).backend == ShortcutBackend::WaylandPortal ==> r is Ok && final(self).hooks_view() == old(self).hooks_view(),
            final(self).backend == ShortcutBackend::Unavailable ==> r is Err && final(self).hooks_view() == old(self).hooks_view(),
    {
        let backend = detect_backend_for_platform(is_linux, info);
        self.backend = backend;
        proof {
            assert(self.suspended_view() =~= old(self).suspended_view());
            assert(self.hooks_view() =~= old(self).hooks_view());
            assert(self.wf());
        }
        match backend {
            ShortcutBackend::WaylandPortal => Ok(()),
            ShortcutBackend::X11 => self.register_x11_shortcuts(),
            ShortcutBackend::Unavailable => Err(
                String::from_str("No shortcut backend available"),
            ),
        }
    }

    /// Whether a binding is currently suspended.
    pub fn is_suspended(&self, id: &str) -> (r: bool)
        ensures
            r == spec_id_in(self.suspended_view(), id@),
    {
        let n = self.suspended_bindings.len();
        for k in 0..n
            invariant
                n == self.suspended_bindings@.len(),
                forall|j: int| 0 <= j < k ==> self.suspended_view()[j] != id@,
        {
            if str_eq(self.suspended_bindings[k].as_str(), id) {
                assert(self.suspended_view()[k as int] == id@);
                return true;
            }
        }
        false
    }

    /// Adds a binding id to the suspended set, once.
    fn push_suspended(&mut self, id: &str)
        requires
            old(self).wf(),
        ensures
            final(self).wf(),
            final(self).backend == old(self).backend,
            final(self).settings == old(self).settings,
            final(self).hooks_view() == old(self).hooks_view(),
            spec_id_in(final(self).suspended_view(), id@),
            forall|x: Seq<char>|
                x != id@ ==> (spec_id_in(final(self).suspended_view(), x) == spec_id_in(
                    old(self).suspended_view(),
                    x,
                )),
    {
        if !self.is_suspended(id) {
            self.suspended_bindings.push(String::from_str(id));
            proof {
                let sv0 = old(self).suspended_view();
                let sv1 = self.suspended_view();
                assert(sv1 =~= sv0.push(id@));
                assert(self.hooks_view() =~= old(self).hooks_view());
                assert(sv1[sv0.len() as int] == id@);
                assert forall|x: Seq<char>|
                    x != id@ && spec_id_in(sv1, x) implies spec_id_in(sv0, x) by {
                    let w = choose|w: int| 0 <= w < sv1.len() && sv1[w] == x;
                    assert(w < sv0.len());
                    assert(sv0[w] == x);
                }
                assert forall|x: Seq<char>|
                    x != id@ && spec_id_in(sv0, x) implies spec_id_in(sv1, x) by {
                    let w = choose|w: int| 0 <= w < sv0.len() && sv0[w] == x;
                    assert(sv1[w] == x);
                }
            }
        } else {
            assert(final(self).suspended_view() =~= old(self).suspended_view());
            assert(final(self).hooks_view() =~= old(self).hooks_view());
        }
    }

    /// Removes a binding id from the suspended set, if present.
    fn remove_suspended(&mut self, id: &str)
        requires
            old(self).wf(),
        ensures
            final(self).wf(),
            final(self).backend == old(self).backend,
            final(self).settings == old(self).settings,
            final(self).hooks_view() == old(self).hooks_view(),
            !spec_id_in(final(self).suspended_view(), id@),
            forall|x: Seq<char>|
                x != id@ ==> (spec_id_in(final(self).suspended_view(), x) == spec_id_in(
                    old(self).suspended_view(),
                    x,
                )),
    {
        let n = self.suspended_bindings.len();
        for k in 0..n
            invariant
                old(self).wf(),
                self == old(self),
                n == self.suspended_bindings@.len(),
                forall|j: int| 0 <= j < k ==> self.suspended_view()[j] != id@,
        {
            if str_eq(self.suspended_bindings[k].as_str(), id) {
                self.suspended_bindings.remove(k);
                proof {
                    assert(final(self).suspended_view() =~= old(self).suspended_view().remove(
                        k as int,
                    ));
                    assert(final(self).hooks_view() =~= old(self).hooks_view());
                    let sv0 = old(self).suspended_view();
                    let sv1 = final(self).suspended_view();
                    assert forall|j: int| 0 <= j < sv1.len() implies sv1[j] != id@ by {
                        if j < k {
                            assert(sv1[j] == sv0[j]);
                        } else {
                            assert(sv1[j] == sv0[j + 1]);
                            assert(sv0[k as int] == id@);
                        }
                    }
                    assert forall|x: Seq<char>|
                        x != id@ && spec_id_in(sv0, x) implies spec_id_in(sv1, x) by {
                        let w = choose|w: int| 0 <= w < sv0.len() && sv0[w] == x;
                        if w < k {
                            assert(sv1[w] == x);
                        } else {
                            assert(w != k);
                            assert(sv1[w - 1] == x);
                        }
                    }
                    assert forall|x: Seq<char>|
                        x != id@ && spec_id_in(sv1, x) implies spec_id_in(sv0, x) by {
                        let w = choose|w: int| 0 <= w < sv1.len() && sv1[w] == x;
                        if w < k {
                            assert(sv0[w] == x);
                        } else {
                            assert(sv0[w + 1] == x);
                        }
                    }
                }
                return ;
            }
        }
        proof {
            assert(final(self).suspended_view() =~= old(self).suspended_view());
            assert(final(self).hooks_view() =~= old(self).hooks_view());
        }
    }

    /// Changes a binding's stored trigger: the old trigger's hook is
    /// removed (best effort: a trigger that no longer parses is simply
    /// skipped), the new trigger is stored, and on the direct-grab
    /// backend a non-empty new trigger is registered.  On the portal
    /// backend only the stored preference changes; the user must change
    /// the actual combination in the host's settings.
    pub fn update_binding(&mut self, id: &str, new_shortcut: &str) -> (r: Result<(), String>)
        requires
            old(self).wf(),
        ensures
            final(self).wf(),
            final(self).backend == old(self).backend,
            final(self).suspended_view() == old(self).suspended_view(),
            spec_binding_index(old(self).settings.bindings@, id@) is None ==> (
            r matches Err(e) && e@ == "Unknown binding id: "@ + id@) && final(self).settings == old(self).settings && final(self).hooks_view() == old(self).hooks_view(),
            spec_binding_index(old(self).settings.bindings@, id@) is Some ==> ({
                let i = spec_binding_index(old(self).settings.bindings@, id@)->Some_0;
                let old_t = old(self).settings.bindings@[i].current_binding@;
                let h1 = if old(self).backend != ShortcutBackend::WaylandPortal && old_t.len() > 0
                    && spec_parse_trigger(old_t) is Some {
                    spec_hook_remove(old(self).hooks_view(), old_t)
                } else {
                    old(self).hooks_view()
                };
                &&& spec_settings_with_trigger(
                    old(self).settings.bindings@,
                    final(self).settings.bindings@,
                    id@,
                    new_shortcut@,
                )
                &&& if old(self).backend != ShortcutBackend::WaylandPortal
                    && new_shortcut@.len() > 0 {
                    match spec_parse_trigger(new_shortcut@) {
                        Some(_) => r is Ok && final(self).hooks_view() == spec_hook_insert(
                            h1,
                            new_shortcut@,
                            id@,
                        ),
                        None => (r matches Err(e) && e@ == "Invalid shortcut: "@ + new_shortcut@)
                            && final(self).hooks_view() == h1,
                    }
                } else {
                    r is Ok && final(self).hooks_view() == h1
                }
            }),
    {
        let old_trigger: String = match self.settings.get_binding(id) {
            None => {
                proof {
                    assert(self.hooks_view() =~= old(self).hooks_view());
                    assert(self.suspended_view() =~= old(self).suspended_view());
                }
                return Err(String::from_str("Unknown binding id: ").concat(id));
            },
            Some(b) => b.current_binding.clone(),
        };
        proof {
            lemma_binding_index_props(old(self).settings.bindings@, id@);
        }
        if !old_trigger.as_str().is_empty() {
            // Best effort: a failure here only means the old hook was
            // already gone or its trigger no longer parses.
            let _ = self.unregister_shortcut(old_trigger.as_str());
        }
        proof {
            assert(self.wf());
        }
        let ghost m_mid = *self;
        self.settings.set_current_binding(id, new_shortcut);
        proof {
            assert(self.hooks_view() =~= m_mid.hooks_view());
            assert(self.suspended_view() =~= m_mid.suspended_view());
            assert(self.wf());
            lemma_binding_index_same_ids(
                old(self).settings.bindings@,
                self.settings.bindings@,
                id@,
            );
        }
        if self.get_backend() != ShortcutBackend::WaylandPortal && !new_shortcut.is_empty() {
            match self.register_shortcut(id, new_shortcut) {
                Err(e) => {
                    return Err(e);
                },
                Ok(()) => {},
            }
        }
        Ok(())
    }

    /// Temporarily removes a binding's hook without touching its stored
    /// trigger, and marks the binding suspended.  Idempotent: suspending
    /// an already suspended binding changes nothing.  An unknown binding
    /// id is a configuration error on every backend.  On the portal
    /// backend only the bookkeeping mark is made; the host keeps its
    /// mapping.  No other binding's suspension status changes.
    pub fn suspend_binding(&mut self, id: &str) -> (r: Result<(), String>)
        requires
            old(self).wf(),
        ensures
            final(self).wf(),
            final(self).backend == old(self).backend,
            final(self).settings == old(self).settings,
            forall|x: Seq<char>|
                x != id@ ==> (spec_id_in(final(self).suspended_view(), x) == spec_id_in(
                    old(self).suspended_view(),
                    x,
                )),
            match spec_binding_of(old(self).settings.bindings@, id@) {
                None => (r matches Err(e) && e@ == "Unknown binding id: "@ + id@) && final(self).hooks_view() == old(self).hooks_view() && final(self).suspended_view() == old(self).suspended_view(),
                Some(b) => {
                    if old(self).backend == ShortcutBackend::WaylandPortal {
                        r is Ok && final(self).hooks_view() == old(self).hooks_view()
                            && spec_id_in(final(self).suspended_view(), id@)
                    } else if b.current_binding@.len() == 0 {
                        r is Ok && final(self).hooks_view() == old(self).hooks_view() && final(self).suspended_view() == old(self).suspended_view()
                    } else {
                        match spec_parse_trigger(b.current_binding@) {
                            Some(_) => r is Ok && final(self).hooks_view() == spec_hook_remove(
                                old(self).hooks_view(),
                                b.current_binding@,
                            ) && spec_id_in(final(self).suspended_view(), id@),
                            None => (r matches Err(e) && e@ == "Invalid shortcut: "@
                                + b.current_binding@) && final(self).hooks_view() == old(self).hooks_view() && final(self).suspended_view() == old(self).suspended_view(),
                        }
                    }
                },
            },
    {
        let trigger: String = match self.settings.get_binding(id) {
            None => {
                proof {
                    assert(self.hooks_view() =~= old(self).hooks_view());
                    assert(self.suspended_view() =~= old(self).suspended_view());
                    lemma_binding_index_props(old(self).settings.bindings@, id@);
                }
                return Err(String::from_str("Unknown binding id: ").concat(id));
            },
            Some(b) => b.current_binding.clone(),
        };
        proof {
            lemma_binding_index_props(old(self).settings.bindings@, id@);
        }
        if self.get_backend() == ShortcutBackend::WaylandPortal {
            self.push_suspended(id);
            return Ok(());
        }
        if !trigger.as_str().is_empty() {
            match self.unregister_shortcut(trigger.as_str()) {
                Err(e) => {
                    return Err(e);
                },
                Ok(()) => {},
            }
            self.push_suspended(id);
        }
        Ok(())
    }

    /// Re-registers a suspended binding's stored trigger and clears the
    /// suspension mark.  Idempotent: resuming a binding that was never
    /// suspended is a no-op success.  An unknown binding id is a
    /// configuration error on every backend.  On the portal backend only
    /// the mark is cleared.  No other binding's suspension status
    /// changes.
    pub fn resume_binding(&mut self, id: &str) -> (r: Result<(), String>)
        requires
            old(self).wf(),
        ensures
            final(self).wf(),
            final(self).backend == old(self).backend,
            final(self).settings == old(self).settings,
            forall|x: Seq<char>|
                x != id@ ==> (spec_id_in(final(self).suspended_view(), x) == spec_id_in(
                    old(self).suspended_view(),
                    x,
                )),
            match spec_binding_of(old(self).settings.bindings@, id@) {
                None => (r matches Err(e) && e@ == "Unknown binding id: "@ + id@) && final(self).hooks_view() == old(self).hooks_view() && final(self).suspended_view() == old(self).suspended_view(),
                Some(b) => {
                    if old(self).backend == ShortcutBackend::WaylandPortal {
                        r is Ok && final(self).hooks_view() == old(self).hooks_view()
                            && !spec_id_in(final(self).suspended_view(), id@)
                    } else if b.current_binding@.len() == 0 {
                        r is Ok && final(self).hooks_view() == old(self).hooks_view()
                            && !spec_id_in(final(self).suspended_view(), id@)
                    } else {
                        match spec_parse_trigger(b.current_binding@) {
                            Some(_) => r is Ok && final(self).hooks_view() == spec_hook_insert(
                                old(self).hooks_view(),
                                b.current_binding@,
                                id@,
                            ) && !spec_id_in(final(self).suspended_view(), id@),
                            None => (r matches Err(e) && e@ == "Invalid shortcut: "@
                                + b.current_binding@) && final(self).hooks_view() == old(self).hooks_view() && final(self).suspended_view() == old(self).suspended_view(),
                        }
                    }
                },
            },
    {
        let trigger: String = match self.settings.get_binding(id) {
            None => {
                proof {
                    assert(self.hooks_view() =~= old(self).hooks_view());
                    assert(self.suspended_view() =~= old(self).suspended_view());
                    lemma_binding_index_props(old(self).settings.bindings@, id@);
                }
                return Err(String::from_str("Unknown binding id: ").concat(id));
            },
            Some(b) => b.current_binding.clone(),
        };
        proof {
            lemma_binding_index_props(old(self).settings.bindings@, id@);
        }
        if self.get_backend() == ShortcutBackend::WaylandPortal {
            self.remove_suspended(id);
            return Ok(());
        }
        if !trigger.as_str().is_empty() {
            match self.register_shortcut(id, trigger.as_str()) {
                Err(e) => {
                    return Err(e);
                },
                Ok(()) => {},
            }
        }
        self.remove_suspended(id);
        Ok(())
    }
}

/// The settings' binding table after one trigger change: the binding
/// under `id` carries `new_t`, everything else is untouched.
pub open spec fn spec_settings_with_trigger(
    s0: Seq<ShortcutBinding>,
    s1: Seq<ShortcutBinding>,
    id: Seq<char>,
    new_t: Seq<char>,
) -> bool {
    match spec_binding_index(s0, id) {
        Some(i) => {
            &&& s1.len() == s0.len()
            &&& (forall|j: int| 0 <= j < s0.len() && j != i ==> s1[j] == s0[j])
            &&& s1[i].id@ == s0[i].id@
            &&& s1[i].name@ == s0[i].name@
            &&& s1[i].description@ == s0[i].description@
            &&& s1[i].default_binding@ == s0[i].default_binding@
            &&& s1[i].current_binding@ == new_t
        },
        None => s1 == s0,
    }
}

impl HotkeyManager {
    /// Turns a native key event on a grabbed trigger into the common
    /// event vocabulary: the event names the binding hooked on that
    /// trigger, and a trigger without a hook produces nothing.
    pub fn hook_event(&self, trigger: &str, phase: ShortcutPhase, timestamp_ms: u64) -> (r: Option<
        ShortcutEvent,
    >)
        ensures
            match hook_lookup(self.hooks_view(), trigger@) {
                Some(id) => (r matches Some(e) && e.binding_id@ == id && e.phase == phase
                    && e.timestamp_ms == timestamp_ms),
                None => r is None,
            },
    {
        proof {
            lemma_hook_index_props(self.hooks_view(), trigger@);
        }
        match self.hook_position(trigger) {
            Some(k) => Some(
                ShortcutEvent { binding_id: self.hooks[k].binding_id.clone(), phase, timestamp_ms },
            ),
            None => None,
        }
    }
}

/// What the controlling layer is told about the shortcut configuration.
#[derive(Debug, Clone)]
pub struct ShortcutInfo {
    /// The backend in use.
    pub backend: ShortcutBackend,
    /// Whether shortcuts must be configured in the host's own settings.
    pub requires_system_settings: bool,
    /// The platform name.
    pub platform: String,
    /// A display-server description, where one is known.
    pub display_server: Option<String>,
}

impl HotkeyManager {
    /// Describes the backend and where shortcuts are configured; the
    /// platform name and display-server description come from the caller,
    /// which read them from the host.
    pub fn get_shortcut_info(&self, platform: String, display_server: Option<String>) -> (r:
        ShortcutInfo)
        ensures
            r.backend == self.backend,
            r.requires_system_settings == (self.backend == ShortcutBackend::WaylandPortal),
            r.platform == platform,
            r.display_server == display_server,
    {
        ShortcutInfo {
            backend: self.backend,
            requires_system_settings: self.backend == ShortcutBackend::WaylandPortal,
            platform,
            display_server,
        }
    }
}

/// Some hook reports binding `id`.
pub open spec fn spec_has_hook_id(h: HookView, id: Seq<char>) -> bool {
    exists|k: int| 0 <= k < h.len() && h[k].1 == id
}

/// `hook_index` sees only the triggers.
pub proof fn lemma_hook_index_same_keys(a: HookView, b: HookView, t: Seq<char>)
    requires
        a.len() == b.len(),
        forall|j: int| 0 <= j < a.len() ==> a[j].0 == b[j].0,
    ensures
        hook_index(a, t) == hook_index(b, t),
    decreases a.len(),
{
    if a.len() > 0 {
        assert(forall|j: int| 0 <= j < a.len() - 1 ==> a.skip(1)[j] == a[j + 1]);
        assert(forall|j: int| 0 <= j < b.len() - 1 ==> b.skip(1)[j] == b[j + 1]);
        lemma_hook_index_same_keys(a.skip(1), b.skip(1), t);
    }
}

/// Appending a hook with a trigger not yet present puts it at the end of
/// the search order.
pub proof fn lemma_hook_index_push_new(h: HookView, t: Seq<char>, id: Seq<char>)
    requires
        forall|j: int| 0 <= j < h.len() ==> h[j].0 != t,
    ensures
        hook_index(h.push((t, id)), t) == Some(h.len() as int),
    decreases h.len(),
{
    let pushed = h.push((t, id));
    if h.len() == 0 {
        assert(pushed[0] == (t, id));
    } else {
        assert(pushed[0] == h[0]);
        assert(pushed.skip(1) =~= h.skip(1).push((t, id)));
        assert(forall|j: int| 0 <= j < h.len() - 1 ==> h.skip(1)[j] == h[j + 1]);
        lemma_hook_index_push_new(h.skip(1), t, id);
    }
}

/// After installing `(t, id)`, looking `t` up yields `id`.
pub proof fn lemma_lookup_after_insert(h: HookView, t: Seq<char>, id: Seq<char>)
    requires
        forall|p: int, q: int| 0 <= p < q < h.len() ==> h[p].0 != h[q].0,
    ensures
        hook_lookup(spec_hook_insert(h, t, id), t) == Some(id),
{
    lemma_hook_index_props(h, t);
    let hv1 = spec_hook_insert(h, t, id);
    match hook_index(h, t) {
        Some(k) => {
            assert(forall|j: int| 0 <= j < hv1.len() ==> hv1[j].0 == h[j].0);
            lemma_hook_index_same_keys(hv1, h, t);
            assert(hv1[k].1 == id);
        },
        None => {
            lemma_hook_index_push_new(h, t, id);
            assert(hv1[h.len() as int].1 == id);
        },
    }
}

/// A registration pass keeps the hook triggers pairwise distinct.
pub proof fn lemma_fold_preserves_unique(h: HookView, bs: Seq<ShortcutBinding>)
    requires
        forall|p: int, q: int| 0 <= p < q < h.len() ==> h[p].0 != h[q].0,
    ensures
        ({
            let hf = spec_register_fold(h, bs);
            forall|p: int, q: int| 0 <= p < q < hf.len() ==> hf[p].0 != hf[q].0
        }),
    decreases bs.len(),
{
    if bs.len() > 0 {
        let hnext = if spec_registrable(bs[0]) {
            spec_hook_insert(h, bs[0].current_binding@, bs[0].id@)
        } else {
            h
        };
        if spec_registrable(bs[0]) {
            lemma_insert_preserves_unique(h, bs[0].current_binding@, bs[0].id@);
        }
        lemma_fold_preserves_unique(hnext, bs.skip(1));
        assert(spec_register_fold(h, bs) == spec_register_fold(hnext, bs.skip(1)));
        let hf = spec_register_fold(h, bs);
        assert forall|p: int, q: int| 0 <= p < q < hf.len() implies hf[p].0 != hf[q].0 by {
            assert(spec_register_fold(hnext, bs.skip(1))[p].0 != spec_register_fold(
                hnext,
                bs.skip(1),
            )[q].0);
        }
    }
}

/// Installing a hook for some other binding, or for this binding on
/// trigger `t`, keeps the rule that every hook reporting `id` has
/// trigger `t`.
pub proof fn lemma_insert_id_triggers(
    h: HookView,
    t2: Seq<char>,
    id2: Seq<char>,
    id: Seq<char>,
    t: Seq<char>,
)
    requires
        forall|k: int| 0 <= k < h.len() && h[k].1 == id ==> h[k].0 == t,
        id2 == id ==> t2 == t,
    ensures
        ({
            let hv1 = spec_hook_insert(h, t2, id2);
            forall|k: int| 0 <= k < hv1.len() && hv1[k].1 == id ==> hv1[k].0 == t
        }),
{
    lemma_hook_index_props(h, t2);
    let hv1 = spec_hook_insert(h, t2, id2);
    match hook_index(h, t2) {
        Some(i) => {
            assert forall|k: int| 0 <= k < hv1.len() && hv1[k].1 == id implies hv1[k].0 == t by {
                if k != i {
                    assert(hv1[k] == h[k]);
                }
            }
        },
        None => {
            assert forall|k: int| 0 <= k < hv1.len() && hv1[k].1 == id implies hv1[k].0 == t by {
                if k < h.len() {
                    assert(hv1[k] == h[k]);
                } else {
                    assert(hv1[k] == (t2, id2));
                }
            }
        },
    }
}

/// After a registration pass, every hook reporting `id` carries the
/// trigger stored for `id`, provided that was already so beforehand.
pub proof fn lemma_fold_id_triggers(
    h: HookView,
    bs: Seq<ShortcutBinding>,
    id: Seq<char>,
    t: Seq<char>,
)
    requires
        forall|k: int| 0 <= k < h.len() && h[k].1 == id ==> h[k].0 == t,
        forall|j: int| 0 <= j < bs.len() && bs[j].id@ == id ==> bs[j].current_binding@ == t,
    ensures
        ({
            let hf = spec_register_fold(h, bs);
            forall|k: int| 0 <= k < hf.len() && hf[k].1 == id ==> hf[k].0 == t
        }),
    decreases bs.len(),
{
    if bs.len() > 0 {
        assert(forall|j: int| 0 <= j < bs.len() - 1 ==> bs.skip(1)[j] == bs[j + 1]);
        let hnext = if spec_registrable(bs[0]) {
            spec_hook_insert(h, bs[0].current_binding@, bs[0].id@)
        } else {
            h
        };
        if spec_registrable(bs[0]) {
            lemma_insert_id_triggers(h, bs[0].current_binding@, bs[0].id@, id, t);
        }
        lemma_fold_id_triggers(hnext, bs.skip(1), id, t);
        assert(spec_register_fold(h, bs) == spec_register_fold(hnext, bs.skip(1)));
        let hf = spec_register_fold(h, bs);
        assert forall|k: int| 0 <= k < hf.len() && hf[k].1 == id implies hf[k].0 == t by {
            assert(spec_register_fold(hnext, bs.skip(1))[k].1 == id);
            assert(spec_register_fold(hnext, bs.skip(1))[k].0 == t);
        }
    }
}

/// When every hook reporting `id` carries trigger `t` and triggers are
/// unique, removing the hook on `t` leaves no hook reporting `id`.
pub proof fn lemma_remove_trigger_clears_id(h: HookView, t: Seq<char>, id: Seq<char>)
    requires
        forall|p: int, q: int| 0 <= p < q < h.len() ==> h[p].0 != h[q].0,
        forall|k: int| 0 <= k < h.len() && h[k].1 == id ==> h[k].0 == t,
    ensures
        !spec_has_hook_id(spec_hook_remove(h, t), id),
{
    lemma_hook_index_props(h, t);
    let hv1 = spec_hook_remove(h, t);
    match hook_index(h, t) {
        Some(i) => {
            assert forall|k: int| 0 <= k < hv1.len() implies hv1[k].1 != id by {
                let k0 = if k < i {
                    k
                } else {
                    k + 1
                };
                assert(hv1[k] == h[k0]);
                if h[k0].1 == id {
                    assert(h[k0].0 == t);
                    assert(h[i].0 == t);
                }
            }
        },
        None => {
            assert forall|k: int| 0 <= k < hv1.len() implies hv1[k].1 != id by {
                if hv1[k].1 == id {
                    assert(h[k].0 == t);
                }
            }
        },
    }
}

/// Installing a hook for some other binding never creates one for `id`.
pub proof fn lemma_insert_keeps_no_id(h: HookView, t2: Seq<char>, id2: Seq<char>, id: Seq<char>)
    requires
        !spec_has_hook_id(h, id),
        id2 != id,
    ensures
        !spec_has_hook_id(spec_hook_insert(h, t2, id2), id),
{
    lemma_hook_index_props(h, t2);
    let hv1 = spec_hook_insert(h, t2, id2);
    match hook_index(h, t2) {
        Some(i) => {
            assert forall|k: int| 0 <= k < hv1.len() implies hv1[k].1 != id by {
                if k != i {
                    assert(hv1[k] == h[k]);
                }
            }
        },
        None => {
            assert forall|k: int| 0 <= k < hv1.len() implies hv1[k].1 != id by {
                if k < h.len() {
                    assert(hv1[k] == h[k]);
                }
            }
        },
    }
}

/// A registration pass in which `id` never registers creates no hook
/// reporting `id`.
pub proof fn lemma_fold_keeps_no_id(h: HookView, bs: Seq<ShortcutBinding>, id: Seq<char>)
    requires
        !spec_has_hook_id(h, id),
        forall|j: int| 0 <= j < bs.len() && bs[j].id@ == id ==> !spec_registrable(bs[j]),
    ensures
        !spec_has_hook_id(spec_register_fold(h, bs), id),
    decreases bs.len(),
{
    if bs.len() > 0 {
        assert(forall|j: int| 0 <= j < bs.len() - 1 ==> bs.skip(1)[j] == bs[j + 1]);
        if spec_registrable(bs[0]) {
            assert(bs[0].id@ != id);
            lemma_insert_keeps_no_id(h, bs[0].current_binding@, bs[0].id@, id);
            lemma_fold_keeps_no_id(
                spec_hook_insert(h, bs[0].current_binding@, bs[0].id@),
                bs.skip(1),
                id,
            );
        } else {
            lemma_fold_keeps_no_id(h, bs.skip(1), id);
        }
    }
}

/// Law: for a binding id with a non-empty trigger, a registration pass,
/// then clearing the binding's trigger with `update_binding(id, "")`,
/// then a second registration pass never leaves a stale hook reporting
/// `id` on the direct-grab backend.
///
/// The parameters follow the three calls: `h0`/`bs0` are the hook table
/// and bindings before the first `register_all`, `h1` the hooks after
/// it, `h2`/`bs1` the hooks and bindings after `update_binding(id, "")`
/// (exactly as its contract relates them on the direct-grab backend),
/// and `h3` the hooks after the second `register_all`.
pub proof fn lemma_no_stale_hook_for_disabled_binding(
    h0: HookView,
    bs0: Seq<ShortcutBinding>,
    h1: HookView,
    h2: HookView,
    bs1: Seq<ShortcutBinding>,
    h3: HookView,
    id: Seq<char>,
)
    requires
        forall|p: int, q: int| 0 <= p < q < h0.len() ==> h0[p].0 != h0[q].0,
        forall|p: int, q: int| 0 <= p < q < bs0.len() ==> bs0[p].id@ != bs0[q].id@,
        !spec_has_hook_id(h0, id),
        spec_binding_index(bs0, id) is Some,
        h1 == spec_register_fold(h0, bs0),
        ({
            let i = spec_binding_index(bs0, id)->Some_0;
            let old_t = bs0[i].current_binding@;
            h2 == (if old_t.len() > 0 && spec_parse_trigger(old_t) is Some {
                spec_hook_remove(h1, old_t)
            } else {
                h1
            })
        }),
        spec_settings_with_trigger(bs0, bs1, id, Seq::<char>::empty()),
        h3 == spec_register_fold(h2, bs1),
    ensures
        !spec_has_hook_id(h3, id),
{
    lemma_binding_index_props(bs0, id);
    let i = spec_binding_index(bs0, id)->Some_0;
    let old_t = bs0[i].current_binding@;
    assert forall|j: int|
        0 <= j < bs0.len() && bs0[j].id@ == id implies bs0[j].current_binding@ == old_t by {
        if j != i {
            assert(bs0[i].id@ == id);
        }
    }
    if old_t.len() > 0 && spec_parse_trigger(old_t) is Some {
        lemma_fold_id_triggers(h0, bs0, id, old_t);
        lemma_fold_preserves_unique(h0, bs0);
        lemma_remove_trigger_clears_id(h1, old_t, id);
    } else {
        assert forall|j: int|
            0 <= j < bs0.len() && bs0[j].id@ == id implies !spec_registrable(bs0[j]) by {
            if j != i {
                assert(bs0[i].id@ == id);
            }
        }
        lemma_fold_keeps_no_id(h0, bs0, id);
    }
    assert(!spec_has_hook_id(h2, id));
    assert forall|j: int|
        0 <= j < bs1.len() && bs1[j].id@ == id implies !spec_registrable(bs1[j]) by {
        if j != i {
            assert(bs1[j] == bs0[j]);
            assert(bs0[i].id@ == id);
        } else {
            assert(bs1[i].current_binding@ == Seq::<char>::empty());
        }
    }
    lemma_fold_keeps_no_id(h2, bs1, id);
}

/// Law: suspending a registered binding and then resuming it restores
/// exactly the hook that was active before, on the stored trigger.  The
/// parameters follow the two calls on the direct-grab backend: the
/// binding's stored trigger `t` is hooked as `id` in `h0`, suspension
/// removes it (`h1`), resumption re-registers the unchanged stored
/// trigger (`h2`), and `t` reports `id` again.
pub proof fn lemma_suspend_resume_restores_trigger(
    h0: HookView,
    h1: HookView,
    h2: HookView,
    t: Seq<char>,
    id: Seq<char>,
)
    requires
        forall|p: int, q: int| 0 <= p < q < h0.len() ==> h0[p].0 != h0[q].0,
        hook_lookup(h0, t) == Some(id),
        h1 == spec_hook_remove(h0, t),
        h2 == spec_hook_insert(h1, t, id),
    ensures
        hook_lookup(h2, t) == hook_lookup(h0, t),
        hook_lookup(h2, t) == Some(id),
{
    lemma_remove_preserves_unique(h0, t);
    lemma_lookup_after_insert(h1, t, id);
}

/// What the controlling layer shows the user about shortcut
/// configuration: the backend's name, whether the host's own settings
/// are in charge, and a message saying how shortcuts are changed.
#[derive(Debug, Clone)]
pub struct ShortcutBackendInfo {
    /// The backend's stable name: `x11`, `wayland_portal`, or
    /// `unavailable`.
    pub backend: String,
    /// Whether shortcuts must be configured in the host's own settings.
    pub requires_system_settings: bool,
    /// The platform name.
    pub platform: String,
    /// A display-server description, where one is known.
    pub display_server: Option<String>,
    /// A human-readable note on where shortcuts are configured.
    pub message: String,
}

/// Renders the shortcut information for the controlling layer: the
/// backend under its stable name, and a message that sends portal users
/// to the host's settings and direct-grab users to in-app recording.
pub fn get_shortcut_backend_info(info: ShortcutInfo) -> (r: ShortcutBackendInfo)
    ensures
        info.backend == ShortcutBackend::X11 ==> r.backend@ == "x11"@,
        info.backend == ShortcutBackend::WaylandPortal ==> r.backend@ == "wayland_portal"@,
        info.backend == ShortcutBackend::Unavailable ==> r.backend@ == "unavailable"@,
        r.requires_system_settings == info.requires_system_settings,
        r.platform == info.platform,
        r.display_server == info.display_server,
        info.requires_system_settings ==> r.message@
            == "On Wayland, keyboard shortcuts are configured in System Settings. Go to Settings > Applications > Voyc to set your preferred shortcuts."@,
        !info.requires_system_settings ==> r.message@
            == "Click on a shortcut to record a new key combination."@,
{
    let backend_str: &str = match info.backend {
        ShortcutBackend::X11 => "x11",
        ShortcutBackend::WaylandPortal => "wayland_portal",
        ShortcutBackend::Unavailable => "unavailable",
    };
    let message: &str = if info.requires_system_settings {
        "On Wayland, keyboard shortcuts are configured in System Settings. Go to Settings > Applications > Voyc to set your preferred shortcuts."
    } else {
        "Click on a shortcut to record a new key combination."
    };
    ShortcutBackendInfo {
        backend: String::from_str(backend_str),
        requires_system_settings: info.requires_system_settings,
        platform: info.platform,
        display_server: info.display_server,
        message: String::from_str(message),
    }
}

} // verus!
