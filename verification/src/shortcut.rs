//! Global shortcuts: which key combinations are registered with the
//! system, and the commands that change them.

use crate::defaults::get_stored_binding;
use crate::error::{CommandError, CommandErrorView, Error, ErrorView};
use crate::settings::{
    lemma_binding_views_insert, lemma_text_views_insert, text_views, AppSettings, AppSettingsView,
    ShortcutBinding, ShortcutBindingView,
};
use crate::table::Table;
use crate::text::{join2, join3, owned, same};
use vstd::prelude::*;

verus! {

/// The id of the binding that cancels a session. Its registration follows
/// the state of the session, not the commands of this module.
pub const CANCEL_BINDING_ID: &'static str = "cancel";

/// Whether a character can stand in a key combination: a visible ASCII
/// character.
pub open spec fn is_chord_char(c: char) -> bool {
    '!' <= c && c <= '~'
}

/// Whether position `i` of a key combination is in order: the character is
/// allowed, and a `+` there has a key name before it.
pub open spec fn chord_ok_at(text: Seq<char>, i: int) -> bool {
    &&& is_chord_char(text[i])
    &&& text[i] == '+' ==> i > 0 && text[i - 1] != '+'
}

/// Whether a text is a key combination: one or more key names, joined by
/// `+`, where a key name is a non-empty run of visible ASCII characters
/// other than `+`.
pub open spec fn valid_chord(text: Seq<char>) -> bool {
    &&& text.len() > 0
    &&& text.last() != '+'
    &&& forall|i: int| 0 <= i < text.len() ==> chord_ok_at(text, i)
}

/// Why a text is no key combination.
pub open spec fn chord_problem(text: Seq<char>) -> Seq<char> {
    if text.len() == 0 {
        "Shortcut cannot be empty"@
    } else {
        "Invalid shortcut: "@ + text
    }
}

/// Whether a text is a key combination.
pub fn is_valid_shortcut(raw: &str) -> (r: bool)
    ensures
        r == valid_chord(raw@),
{
    let mut ok = true;
    let mut after_plus = true;
    let mut empty = true;
    for c in it: raw.chars()
        invariant
            it.seq() == raw@,
            ok == (forall|i: int| 0 <= i < it.index() ==> chord_ok_at(raw@, i)),
            empty == (it.index() == 0),
            after_plus == (it.index() == 0 || raw@[it.index() - 1] == '+'),
    {
        if !('!' <= c && c <= '~') || (c == '+' && after_plus) {
            ok = false;
            assert(!chord_ok_at(raw@, it.index() as int));
        }
        after_plus = c == '+';
        empty = false;
    }
    ok && !empty && !after_plus
}

/// Accepts a key combination and refuses any other text with a
/// `ValidationError`.
pub fn validate_shortcut(raw: &str) -> (r: Result<(), Error>)
    ensures
        match r {
            Ok(_) => valid_chord(raw@),
            Err(e) => !valid_chord(raw@) && e@ == ErrorView::ValidationError(chord_problem(raw@)),
        },
{
    if is_valid_shortcut(raw) {
        Ok(())
    } else if raw.is_empty() {
        Err(Error::ValidationError(owned("Shortcut cannot be empty")))
    } else {
        Err(Error::ValidationError(join2("Invalid shortcut: ", raw)))
    }
}

/// Whether a binding other than `id` holds the key combination `chord`.
pub open spec fn held_by_other(
    active: Map<Seq<char>, Seq<char>>,
    id: Seq<char>,
    chord: Seq<char>,
) -> bool {
    exists|other: Seq<char>| #[trigger]
        active.contains_key(other) && other != id && active[other] == chord
}

/// The registrations: for the id of each binding that is registered with
/// the system, the key combination it is registered with. The stored
/// value of a binding lives in the configuration; the router knows only
/// what is live.
#[derive(Debug, Clone, PartialEq, Eq)]
pub struct ShortcutRouter {
    active: Table<String>,
}

impl View for ShortcutRouter {
    type V = Map<Seq<char>, Seq<char>>;

    closed spec fn view(&self) -> Map<Seq<char>, Seq<char>> {
        text_views(self.active@)
    }
}

/// No key combination is registered for two bindings, and every one that
/// is registered is a key combination.
#[verifier::opaque]
pub open spec fn registrations_ok(active: Map<Seq<char>, Seq<char>>) -> bool {
    &&& forall|a: Seq<char>, b: Seq<char>|
        #![trigger active.contains_key(a), active.contains_key(b)]
        active.contains_key(a) && active.contains_key(b) && active[a] == active[b] ==> a == b
    &&& forall|a: Seq<char>| #[trigger] active.contains_key(a) ==> valid_chord(active[a])
}

/// Whether `error` is the refusal that registering `chord` for `id`
/// meets: a `ValidationError` for a text that is no key combination, else
/// a `ShortcutConflict` that names a binding which holds the key
/// combination.
pub open spec fn is_refusal(
    active: Map<Seq<char>, Seq<char>>,
    id: Seq<char>,
    chord: Seq<char>,
    error: ErrorView,
) -> bool {
    if !valid_chord(chord) {
        error == ErrorView::ValidationError(chord_problem(chord))
    } else {
        &&& error matches ErrorView::ShortcutConflict(other)
        &&& active.contains_key(other)
        &&& other != id
        &&& active[other] == chord
    }
}

/// What registering `chord` for `id` comes to: a text that is no key
/// combination is refused; so is a key combination that another binding
/// holds; anything else becomes the registration of `id`.
pub open spec fn registered(
    active: Map<Seq<char>, Seq<char>>,
    id: Seq<char>,
    chord: Seq<char>,
) -> Map<Seq<char>, Seq<char>> {
    if valid_chord(chord) && !held_by_other(active, id, chord) {
        active.insert(id, chord)
    } else {
        active
    }
}

impl ShortcutRouter {
    /// The invariant of the registrations.
    pub open spec fn wf(self) -> bool {
        registrations_ok(self@)
    }

    /// A router with nothing registered.
    pub fn new() -> (r: Self)
        ensures
            r.wf(),
            r@ == Map::<Seq<char>, Seq<char>>::empty(),
    {
        let r = ShortcutRouter { active: Table::new() };
        proof {
            reveal(registrations_ok);
        }
        r
    }

    /// Whether the binding with this id is registered.
    pub fn is_registered(&self, id: &str) -> (r: bool)
        ensures
            r == self@.contains_key(id@),
    {
        self.active.contains_key(id)
    }

    /// The key combination that the binding with this id is registered
    /// with.
    pub fn registered_chord(&self, id: &str) -> (r: Option<&String>)
        ensures
            match r {
                Some(chord) => self@.contains_key(id@) && chord@ == self@[id@],
                None => !self@.contains_key(id@),
            },
    {
        self.active.get(id)
    }

    fn holder(&self, id: &str, chord: &str) -> (r: Option<String>)
        ensures
            match r {
                Some(other) => self@.contains_key(other@) && other@ != id@ && self@[other@]
                    == chord@,
                None => !held_by_other(self@, id@, chord@),
            },
    {
        let count = self.active.len();
        let ghost order = self.active.order();
        proof {
            self.active.lemma_order();
        }
        let mut i: usize = 0;
        while i < count
            invariant
                i <= count,
                count == order.len(),
                order == self.active.order(),
                self.active@.dom() == order.to_set(),
                forall|j: int|
                    0 <= j < i ==> !(order[j] != id@ && self@[#[trigger] order[j]] == chord@),
            decreases count - i,
        {
            let key = self.active.key_at(i);
            let value = self.active.value_at(i);
            if same(value.as_str(), chord) && !same(key.as_str(), id) {
                return Some(key.clone());
            }
            i = i + 1;
        }
        None
    }
}

/// Registers the current key combination of a binding. A text that is
/// no key combination is refused with a `ValidationError`, a key
/// combination that another registered binding holds with a
/// `ShortcutConflict` that names the holder; in both cases nothing
/// changes. Otherwise the key combination becomes the registration of
/// the binding, in place of an earlier one.
pub fn register_shortcut(router: &mut ShortcutRouter, binding: &ShortcutBinding) -> (r: Result<(), Error>)
    requires
        old(router).wf(),
    ensures
        final(router).wf(),
        final(router)@ == registered(old(router)@, binding@.id, binding@.current_binding),
        match r {
            Ok(_) => valid_chord(binding@.current_binding) && !held_by_other(
                old(router)@,
                binding@.id,
                binding@.current_binding,
            ),
            Err(e) => if !valid_chord(binding@.current_binding) {
                e@ == ErrorView::ValidationError(chord_problem(binding@.current_binding))
            } else {
                &&& e@ matches ErrorView::ShortcutConflict(other)
                &&& old(router)@.contains_key(other)
                &&& other != binding@.id
                &&& old(router)@[other] == binding@.current_binding
            },
        },
{
    match validate_shortcut(binding.current_binding.as_str()) {
        Err(e) => {
            return Err(e);
        },
        Ok(_) => {},
    }
    match router.holder(binding.id.as_str(), binding.current_binding.as_str()) {
        Some(other) => {
            return Err(Error::ShortcutConflict(other));
        },
        None => {},
    }
    let ghost before = router.active@;
    let chord = binding.current_binding.clone();
    let ghost stored = chord;
    router.active.insert(binding.id.clone(), chord);
    proof {
        reveal(registrations_ok);
        lemma_text_views_insert(before, binding@.id, stored);
    }
    Ok(())
}

/// Takes the registration of a binding away. A binding that is not
/// registered is left as it is: this never fails.
pub fn unregister_shortcut(router: &mut ShortcutRouter, binding: &ShortcutBinding) -> (r: Result<(), Error>)
    requires
        old(router).wf(),
    ensures
        final(router).wf(),
        r is Ok,
        final(router)@ == old(router)@.remove(binding@.id),
{
    let ghost before = router.active@;
    let _ = router.active.remove(binding.id.as_str());
    proof {
        reveal(registrations_ok);
        assert(text_views(before.remove(binding@.id)) =~= text_views(before).remove(
            binding@.id,
        ));
    }
    Ok(())
}

/// The answer to a command that changes a binding.
#[derive(Debug, PartialEq, Eq)]
pub struct BindingResponse {
    pub success: bool,
    /// The binding as it is stored now, after a change.
    pub binding: Option<ShortcutBinding>,
    /// Why nothing was changed.
    pub error: Option<String>,
}

/// The mathematical value of a [`BindingResponse`].
pub struct BindingResponseView {
    pub success: bool,
    pub binding: Option<ShortcutBindingView>,
    pub error: Option<Seq<char>>,
}

impl View for BindingResponse {
    type V = BindingResponseView;

    open spec fn view(&self) -> BindingResponseView {
        BindingResponseView {
            success: self.success,
            binding: match self.binding {
                Some(b) => Some(b@),
                None => None,
            },
            error: self.error.deep_view(),
        }
    }
}

/// The answer to a request for another keyboard backend.
#[derive(Debug, PartialEq, Eq)]
pub struct ImplementationChangeResult {
    pub success: bool,
    /// The ids of the bindings that were reset to their defaults because
    /// the new backend could not take them.
    pub reset_bindings: Vec<String>,
}

/// The binding other than `id` that holds `chord`, where there is one.
pub open spec fn holder_of(active: Map<Seq<char>, Seq<char>>, id: Seq<char>, chord: Seq<char>) -> Seq<
    char,
> {
    choose|other: Seq<char>| #[trigger]
        active.contains_key(other) && other != id && active[other] == chord
}

/// Among well-formed registrations a key combination has one holder.
pub proof fn lemma_one_holder(
    active: Map<Seq<char>, Seq<char>>,
    id: Seq<char>,
    chord: Seq<char>,
    other: Seq<char>,
)
    requires
        registrations_ok(active),
        active.contains_key(other),
        other != id,
        active[other] == chord,
    ensures
        held_by_other(active, id, chord),
        holder_of(active, id, chord) == other,
{
    reveal(registrations_ok);
}

/// The answer that says that a binding was changed.
pub open spec fn changed_response(binding: ShortcutBindingView) -> BindingResponseView {
    BindingResponseView { success: true, binding: Some(binding), error: None }
}

/// The answer that says why a binding was not changed.
pub open spec fn refused_response(why: Seq<char>) -> BindingResponseView {
    BindingResponseView { success: false, binding: None, error: Some(why) }
}

/// A binding with another current key combination.
pub open spec fn rebound(binding: ShortcutBindingView, chord: Seq<char>) -> ShortcutBindingView {
    ShortcutBindingView { current_binding: chord, ..binding }
}

/// Whether giving the stored binding `id` the key combination `chord` goes
/// through. For the cancel binding it always does: only its stored value
/// changes, its registration follows the session. For any other binding
/// `chord` has to be a key combination that no other binding holds.
pub open spec fn change_accepted(
    settings: AppSettingsView,
    active: Map<Seq<char>, Seq<char>>,
    id: Seq<char>,
    chord: Seq<char>,
) -> bool {
    &&& settings.bindings.contains_key(id)
    &&& id == CANCEL_BINDING_ID@ || (valid_chord(chord) && !held_by_other(
        active.remove(settings.bindings[id].id),
        settings.bindings[id].id,
        chord,
    ))
}

/// The configuration after the command: the new key combination is stored
/// where the change goes through, and nothing changes where it does not.
pub open spec fn settings_after_change(
    settings: AppSettingsView,
    active: Map<Seq<char>, Seq<char>>,
    id: Seq<char>,
    chord: Seq<char>,
) -> AppSettingsView {
    if change_accepted(settings, active, id, chord) {
        AppSettingsView {
            bindings: settings.bindings.insert(id, rebound(settings.bindings[id], chord)),
            ..settings
        }
    } else {
        settings
    }
}

/// The registrations after the command. An unknown id and the cancel
/// binding leave them alone. Any other binding first loses its
/// registration and then gets the new one, if that can be registered: a
/// change that is refused leaves the binding unregistered.
pub open spec fn active_after_change(
    settings: AppSettingsView,
    active: Map<Seq<char>, Seq<char>>,
    id: Seq<char>,
    chord: Seq<char>,
) -> Map<Seq<char>, Seq<char>> {
    if !settings.bindings.contains_key(id) || id == CANCEL_BINDING_ID@ {
        active
    } else {
        registered(active.remove(settings.bindings[id].id), settings.bindings[id].id, chord)
    }
}

/// The answer to the command: a refusal for an unknown id; the stored
/// binding where the change goes through; an error for a text that is no
/// key combination; a refusal for a key combination that another binding
/// holds.
pub open spec fn response_to_change(
    settings: AppSettingsView,
    active: Map<Seq<char>, Seq<char>>,
    id: Seq<char>,
    chord: Seq<char>,
) -> Result<BindingResponseView, ErrorView> {
    if !settings.bindings.contains_key(id) {
        Ok(refused_response("Binding with id '"@ + id + "' not found"@))
    } else if change_accepted(settings, active, id, chord) {
        Ok(changed_response(rebound(settings.bindings[id], chord)))
    } else if !valid_chord(chord) {
        Err(ErrorView::ValidationError(chord_problem(chord)))
    } else {
        Ok(
            refused_response(
                conflict_refusal(
                    active.remove(settings.bindings[id].id),
                    settings.bindings[id].id,
                    chord,
                ),
            ),
        )
    }
}

/// Why a key combination that another binding holds is not registered.
pub open spec fn conflict_refusal(
    active: Map<Seq<char>, Seq<char>>,
    id: Seq<char>,
    chord: Seq<char>,
) -> Seq<char> {
    "Failed to register shortcut: "@ + ErrorView::ShortcutConflict(
        holder_of(active, id, chord),
    ).message()
}

/// The view of the outcome of a command that changes a binding.
pub open spec fn response_view(r: Result<BindingResponse, Error>) -> Result<
    BindingResponseView,
    ErrorView,
> {
    match r {
        Ok(response) => Ok(response@),
        Err(e) => Err(e@),
    }
}

fn store_binding(settings: &mut AppSettings, id: &str, binding: ShortcutBinding)
    ensures
        final(settings)@ == (AppSettingsView {
            bindings: old(settings)@.bindings.insert(id@, binding@),
            ..old(settings)@
        }),
{
    let ghost before = settings.bindings@;
    settings.bindings.insert(owned(id), binding);
    proof {
        lemma_binding_views_insert(before, id@, binding);
    }
}

fn rebind(router: &mut ShortcutRouter, updated: &ShortcutBinding) -> (r: Result<
    Option<String>,
    Error,
>)
    requires
        old(router).wf(),
    ensures
        final(router).wf(),
        final(router)@ == registered(
            old(router)@.remove(updated@.id),
            updated@.id,
            updated@.current_binding,
        ),
        match r {
            Err(e) => !valid_chord(updated@.current_binding) && e@ == ErrorView::ValidationError(
                chord_problem(updated@.current_binding),
            ),
            Ok(Some(why)) => valid_chord(updated@.current_binding) && held_by_other(
                old(router)@.remove(updated@.id),
                updated@.id,
                updated@.current_binding,
            ) && why@ == conflict_refusal(
                old(router)@.remove(updated@.id),
                updated@.id,
                updated@.current_binding,
            ),
            Ok(None) => valid_chord(updated@.current_binding) && !held_by_other(
                old(router)@.remove(updated@.id),
                updated@.id,
                updated@.current_binding,
            ),
        },
{
    let _ = unregister_shortcut(router, updated);
    match validate_shortcut(updated.current_binding.as_str()) {
        Err(e) => {
            return Err(e);
        },
        Ok(_) => {},
    }
    let ghost freed = router@;
    match register_shortcut(router, updated) {
        Err(e) => {
            proof {
                match e@ {
                    ErrorView::ShortcutConflict(other) => {
                        lemma_one_holder(freed, updated@.id, updated@.current_binding, other);
                    },
                    _ => {}}
            }
            let why = join2("Failed to register shortcut: ", e.message().as_str());
            Ok(Some(why))
        },
        Ok(_) => Ok(None),
    }
}

/// Gives the binding `id` the key combination `binding`. See
/// [`change_accepted`], [`settings_after_change`], [`active_after_change`]
/// and [`response_to_change`]. The configuration has to be written back
/// where the answer reports success.
pub fn change_binding(
    settings: &mut AppSettings,
    router: &mut ShortcutRouter,
    id: &str,
    binding: String,
) -> (r: Result<BindingResponse, Error>)
    requires
        old(router).wf(),
    ensures
        final(router).wf(),
        final(settings)@ == settings_after_change(old(settings)@, old(router)@, id@, binding@),
        final(router)@ == active_after_change(old(settings)@, old(router)@, id@, binding@),
        response_view(r) == response_to_change(old(settings)@, old(router)@, id@, binding@),
{
    let ghost before = settings@;
    let ghost active = router@;
    let updated = match settings.bindings.get(id) {
        Some(found) => ShortcutBinding {
            id: found.id.clone(),
            name: found.name.clone(),
            description: found.description.clone(),
            default_binding: found.default_binding.clone(),
            current_binding: binding,
        },
        None => {
            let why = join3("Binding with id '", id, "' not found");
            return Ok(BindingResponse { success: false, binding: None, error: Some(why) });
        },
    };
    let outcome = if same(id, CANCEL_BINDING_ID) {
        Ok(None)
    } else {
        rebind(router, &updated)
    };
    assert(change_accepted(before, active, id@, binding@) == (outcome matches Ok(None)));
    match outcome {
        Err(e) => Err(e),
        Ok(Some(why)) => Ok(BindingResponse { success: false, binding: None, error: Some(why) }),
        Ok(None) => {
            let answer = updated.clone();
            store_binding(settings, id, updated);
            Ok(BindingResponse { success: true, binding: Some(answer), error: None })
        },
    }
}

/// Gives the binding `id`, which the configuration must hold, the key
/// combination it started with, as [`change_binding`] would.
pub fn reset_binding(settings: &mut AppSettings, router: &mut ShortcutRouter, id: &str) -> (r:
    Result<BindingResponse, Error>)
    requires
        old(router).wf(),
        old(settings)@.bindings.contains_key(id@),
    ensures
        final(router).wf(),
        final(settings)@ == settings_after_change(
            old(settings)@,
            old(router)@,
            id@,
            old(settings)@.bindings[id@].default_binding,
        ),
        final(router)@ == active_after_change(
            old(settings)@,
            old(router)@,
            id@,
            old(settings)@.bindings[id@].default_binding,
        ),
        response_view(r) == response_to_change(
            old(settings)@,
            old(router)@,
            id@,
            old(settings)@.bindings[id@].default_binding,
        ),
{
    let binding = get_stored_binding(settings, id);
    change_binding(settings, router, id, binding.default_binding)
}

/// The registrations without that of the stored binding `id`; unchanged
/// where the configuration holds no such binding.
pub open spec fn suspended(
    settings: AppSettingsView,
    active: Map<Seq<char>, Seq<char>>,
    id: Seq<char>,
) -> Map<Seq<char>, Seq<char>> {
    if settings.bindings.contains_key(id) {
        active.remove(settings.bindings[id].id)
    } else {
        active
    }
}

/// The registrations after an attempt to register the stored binding
/// `id`; unchanged where the configuration holds no such binding.
pub open spec fn resumed(
    settings: AppSettingsView,
    active: Map<Seq<char>, Seq<char>>,
    id: Seq<char>,
) -> Map<Seq<char>, Seq<char>> {
    if settings.bindings.contains_key(id) {
        registered(active, settings.bindings[id].id, settings.bindings[id].current_binding)
    } else {
        active
    }
}

/// Takes the registration of the stored binding `id` away while the user
/// records a new key combination for it. The stored value stays. This
/// never fails.
pub fn suspend_binding(settings: &AppSettings, router: &mut ShortcutRouter, id: &str) -> (r: Result<
    (),
    Error,
>)
    requires
        old(router).wf(),
    ensures
        final(router).wf(),
        r is Ok,
        final(router)@ == suspended(settings@, old(router)@, id@),
{
    match settings.bindings.get(id) {
        Some(binding) => unregister_shortcut(router, binding),
        None => Ok(()),
    }
}

/// Registers the stored binding `id` again. It fails as
/// [`register_shortcut`] does, and only where the configuration holds the
/// binding.
pub fn resume_binding(settings: &AppSettings, router: &mut ShortcutRouter, id: &str) -> (r: Result<
    (),
    Error,
>)
    requires
        old(router).wf(),
    ensures
        final(router).wf(),
        final(router)@ == resumed(settings@, old(router)@, id@),
        r is Ok <==> !settings@.bindings.contains_key(id@) || (valid_chord(
            settings@.bindings[id@].current_binding,
        ) && !held_by_other(
            old(router)@,
            settings@.bindings[id@].id,
            settings@.bindings[id@].current_binding,
        )),
        r matches Err(e) ==> is_refusal(
            old(router)@,
            settings@.bindings[id@].id,
            settings@.bindings[id@].current_binding,
            e@,
        ),
{
    match settings.bindings.get(id) {
        Some(binding) => register_shortcut(router, binding),
        None => Ok(()),
    }
}

/// Registers the cancel binding as it is stored. This is done when a
/// session starts to record.
pub fn register_cancel_shortcut(settings: &AppSettings, router: &mut ShortcutRouter) -> (r: Result<
    (),
    Error,
>)
    requires
        old(router).wf(),
    ensures
        final(router).wf(),
        final(router)@ == resumed(settings@, old(router)@, CANCEL_BINDING_ID@),
        r is Ok <==> !settings@.bindings.contains_key(CANCEL_BINDING_ID@) || (valid_chord(
            settings@.bindings[CANCEL_BINDING_ID@].current_binding,
        ) && !held_by_other(
            old(router)@,
            settings@.bindings[CANCEL_BINDING_ID@].id,
            settings@.bindings[CANCEL_BINDING_ID@].current_binding,
        )),
        r matches Err(e) ==> is_refusal(
            old(router)@,
            settings@.bindings[CANCEL_BINDING_ID@].id,
            settings@.bindings[CANCEL_BINDING_ID@].current_binding,
            e@,
        ),
{
    resume_binding(settings, router, CANCEL_BINDING_ID)
}

/// Takes the registration of the cancel binding away. This is done when
/// the pipeline has nothing left to cancel.
pub fn unregister_cancel_shortcut(settings: &AppSettings, router: &mut ShortcutRouter)
    requires
        old(router).wf(),
    ensures
        final(router).wf(),
        final(router)@ == suspended(settings@, old(router)@, CANCEL_BINDING_ID@),
{
    let _ = suspend_binding(settings, router, CANCEL_BINDING_ID);
}

/// Answers a request for another keyboard backend: the hotkey library is
/// the only one, so asking for it succeeds without resetting anything,
/// and asking for any other is an error.
pub fn change_keyboard_implementation_setting(implementation: &str) -> (r: Result<
    ImplementationChangeResult,
    CommandError,
>)
    ensures
        match r {
            Ok(result) => implementation@ == "handy_keys"@ && result.success
                && result.reset_bindings@.len() == 0,
            Err(e) => implementation@ != "handy_keys"@ && e@
                == CommandErrorView::UnsupportedImplementation,
        },
{
    if same(implementation, "handy_keys") {
        Ok(ImplementationChangeResult { success: true, reset_bindings: Vec::new() })
    } else {
        Err(CommandError::UnsupportedImplementation)
    }
}

/// The name of the keyboard backend in use.
pub fn get_keyboard_implementation() -> (r: String)
    ensures
        r@ == "handy_keys"@,
{
    owned("handy_keys")
}

/// The registrations after each binding of a configuration, taken in the
/// order `order` of their ids, was registered if it could be. The cancel
/// binding is passed over: its registration follows the session.
pub open spec fn initialized(
    active: Map<Seq<char>, Seq<char>>,
    bindings: Map<Seq<char>, ShortcutBindingView>,
    order: Seq<Seq<char>>,
) -> Map<Seq<char>, Seq<char>>
    decreases order.len(),
{
    if order.len() == 0 {
        active
    } else if order[0] == CANCEL_BINDING_ID@ {
        initialized(active, bindings, order.drop_first())
    } else {
        initialized(
            registered(active, bindings[order[0]].id, bindings[order[0]].current_binding),
            bindings,
            order.drop_first(),
        )
    }
}

/// Whether each of those registrations went through.
pub open spec fn initialized_all(
    active: Map<Seq<char>, Seq<char>>,
    bindings: Map<Seq<char>, ShortcutBindingView>,
    order: Seq<Seq<char>>,
) -> bool
    decreases order.len(),
{
    if order.len() == 0 {
        true
    } else if order[0] == CANCEL_BINDING_ID@ {
        initialized_all(active, bindings, order.drop_first())
    } else {
        &&& valid_chord(bindings[order[0]].current_binding)
        &&& !held_by_other(active, bindings[order[0]].id, bindings[order[0]].current_binding)
        &&& initialized_all(
            registered(active, bindings[order[0]].id, bindings[order[0]].current_binding),
            bindings,
            order.drop_first(),
        )
    }
}

/// Registers the stored bindings, but for the cancel binding, in the order
/// in which the configuration holds them. A binding that cannot be
/// registered does not keep the others from being registered; the first
/// such failure is returned.
pub fn init_shortcuts(settings: &AppSettings, router: &mut ShortcutRouter) -> (r: Result<(), Error>)
    requires
        old(router).wf(),
    ensures
        final(router).wf(),
        final(router)@ == initialized(old(router)@, settings@.bindings, settings.bindings.order()),
        r is Ok <==> initialized_all(old(router)@, settings@.bindings, settings.bindings.order()),
        r matches Err(e) ==> e@ is ValidationError || e@ is ShortcutConflict,
{
    let ghost start = router@;
    let ghost bindings = settings@.bindings;
    let ghost order = settings.bindings.order();
    let count = settings.bindings.len();
    let mut first: Option<Error> = None;
    let mut i: usize = 0;
    proof {
        assert(order.skip(0) =~= order);
    }
    while i < count
        invariant
            i <= count,
            count == order.len(),
            order == settings.bindings.order(),
            bindings == settings@.bindings,
            router.wf(),
            initialized(router@, bindings, order.skip(i as int)) == initialized(
                start,
                bindings,
                order,
            ),
            first is None ==> initialized_all(router@, bindings, order.skip(i as int))
                == initialized_all(start, bindings, order),
            first is Some ==> !initialized_all(start, bindings, order),
            first matches Some(e) ==> e@ is ValidationError || e@ is ShortcutConflict,
        decreases count - i,
    {
        proof {
            assert(order.skip(i as int).drop_first() =~= order.skip(i + 1));
        }
        let key = settings.bindings.key_at(i);
        let binding = settings.bindings.value_at(i);
        if !same(key.as_str(), CANCEL_BINDING_ID) {
            match register_shortcut(router, binding) {
                Ok(_) => {},
                Err(e) => {
                    if first.is_none() {
                        first = Some(e);
                    }
                },
            }
        }
        i = i + 1;
    }
    match first {
        Some(e) => Err(e),
        None => Ok(()),
    }
}

/// Unregistering is idempotent: taking a registration away twice is
/// taking it away once.
pub proof fn law_unregister_idempotent(active: Map<Seq<char>, Seq<char>>, id: Seq<char>)
    ensures
        active.remove(id).remove(id) == active.remove(id),
{
    assert(active.remove(id).remove(id) =~= active.remove(id));
}

/// Registering a binding, whether it goes through or is refused, leaves
/// the registration of every other binding as it was.
pub proof fn law_register_spares_others(
    active: Map<Seq<char>, Seq<char>>,
    id: Seq<char>,
    chord: Seq<char>,
    other: Seq<char>,
)
    requires
        other != id,
    ensures
        registered(active, id, chord).contains_key(other) == active.contains_key(other),
        active.contains_key(other) ==> registered(active, id, chord)[other] == active[other],
{
}

/// Suspending a binding that is registered with its stored key
/// combination and resuming it brings the registrations back to what they
/// were.
pub proof fn law_suspend_then_resume(
    settings: AppSettingsView,
    active: Map<Seq<char>, Seq<char>>,
    id: Seq<char>,
)
    requires
        registrations_ok(active),
        settings.bindings.contains_key(id),
        active.contains_key(settings.bindings[id].id),
        active[settings.bindings[id].id] == settings.bindings[id].current_binding,
    ensures
        resumed(settings, suspended(settings, active, id), id) == active,
{
    reveal(registrations_ok);
    let binding = settings.bindings[id];
    let freed = active.remove(binding.id);
    assert(!held_by_other(freed, binding.id, binding.current_binding)) by {
        if held_by_other(freed, binding.id, binding.current_binding) {
            let other = holder_of(freed, binding.id, binding.current_binding);
            assert(active.contains_key(other) && active.contains_key(binding.id));
        }
    }
    assert(freed.insert(binding.id, binding.current_binding) =~= active);
}

} // verus!
