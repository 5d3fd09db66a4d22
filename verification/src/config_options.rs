//! Configuration options: their description, the typed accessors that
//! callbacks receive, and the context box that the three option trampolines
//! share.

use crate::config::{
    option_forgotten, option_free_call, option_recorded, Config, ConfigSection,
};
use crate::host::{
    check_status, encode_flag, flag, HostCall, Registration, OPTION_CHECK_ACCEPT,
    OPTION_CHECK_REJECT,
};
use vstd::prelude::*;

verus! {

/// The type of a configuration option.
#[derive(Clone, Copy, Debug, PartialEq, Eq)]
pub enum OptionType {
    Boolean,
    Integer,
    String,
    Color,
}

impl OptionType {
    /// The host's name for the type.
    pub open spec fn name(self) -> Seq<char> {
        match self {
            OptionType::Boolean => "boolean"@,
            OptionType::Integer => "integer"@,
            OptionType::String => "string"@,
            OptionType::Color => "color"@,
        }
    }

    /// The host's name for the type.
    pub fn as_str(&self) -> (name: &'static str)
        ensures
            name@ == self.name(),
    {
        match self {
            OptionType::Boolean => "boolean",
            OptionType::Integer => "integer",
            OptionType::String => "string",
            OptionType::Color => "color",
        }
    }
}

/// The host's token for a boolean value.
pub open spec fn boolean_token(value: bool) -> Seq<char> {
    if value {
        "on"@
    } else {
        "off"@
    }
}

/// Encodes a boolean value as the host reads it: `on` for true, `off` for
/// false.
pub fn encode_boolean(value: bool) -> (token: &'static str)
    ensures
        token@ == boolean_token(value),
{
    if value {
        "on"
    } else {
        "off"
    }
}

/// The two boolean tokens differ, so the host can tell the values apart.
pub proof fn lemma_boolean_tokens_differ()
    ensures
        boolean_token(true) != boolean_token(false),
        boolean_token(true) == seq!['o', 'n'],
        boolean_token(false) == seq!['o', 'f', 'f'],
{
    reveal_strlit("on");
    reveal_strlit("off");
    assert(boolean_token(true).len() == 2);
    assert(boolean_token(false).len() == 3);
    assert(boolean_token(true) =~= seq!['o', 'n']);
    assert(boolean_token(false) =~= seq!['o', 'f', 'f']);
}

/// Everything the host is told about a new option.
pub struct OptionDescription<'a> {
    /// Name of the option.
    pub name: &'a str,
    /// Type of the option.
    pub option_type: OptionType,
    /// Human-readable description.
    pub description: &'a str,
    /// The legal values of an integer option that is an enumeration, separated
    /// by `|`; empty otherwise.
    pub string_values: &'a str,
    /// Smallest value of an integer option.
    pub min: i32,
    /// Largest value of an integer option.
    pub max: i32,
    /// The default value, encoded as text.
    pub default_value: &'a str,
    /// The current value, encoded as text.
    pub value: &'a str,
    /// Whether the option may be set to null.
    pub null_allowed: bool,
}

/// An option description as the host will see it: every text by its
/// characters.
pub struct OptionDescriptionView {
    pub name: Seq<char>,
    pub option_type: OptionType,
    pub description: Seq<char>,
    pub string_values: Seq<char>,
    pub min: i32,
    pub max: i32,
    pub default_value: Seq<char>,
    pub value: Seq<char>,
    pub null_allowed: bool,
}

impl<'a> View for OptionDescription<'a> {
    type V = OptionDescriptionView;

    open spec fn view(&self) -> OptionDescriptionView {
        OptionDescriptionView {
            name: self.name@,
            option_type: self.option_type,
            description: self.description@,
            string_values: self.string_values@,
            min: self.min,
            max: self.max,
            default_value: self.default_value@,
            value: self.value@,
            null_allowed: self.null_allowed,
        }
    }
}

/// A typed accessor for an option of the host, built from the option's handle
/// each time a callback is fired. It owns nothing.
pub trait ConfigOption: Sized {
    /// The option's handle.
    spec fn option_ptr(&self) -> usize;

    /// The plugin context through which the option is reached.
    spec fn plugin_ptr(&self) -> usize;

    /// Builds the accessor for the option behind `option_ptr`.
    fn from_ptrs(option_ptr: usize, weechat_ptr: usize) -> (option: Self)
        ensures
            option.option_ptr() == option_ptr,
            option.plugin_ptr() == weechat_ptr,
    ;

    /// The option's handle.
    fn as_ptr(&self) -> (ptr: usize)
        ensures
            ptr == self.option_ptr(),
    ;
}

/// A text option.
#[derive(Clone, Copy, Debug, PartialEq, Eq)]
pub struct StringOption {
    pub ptr: usize,
    pub weechat_ptr: usize,
}

/// A boolean option.
#[derive(Clone, Copy, Debug, PartialEq, Eq)]
pub struct BooleanOption {
    pub ptr: usize,
    pub weechat_ptr: usize,
}

/// An integer option.
#[derive(Clone, Copy, Debug, PartialEq, Eq)]
pub struct IntegerOption {
    pub ptr: usize,
    pub weechat_ptr: usize,
}

/// A color option.
#[derive(Clone, Copy, Debug, PartialEq, Eq)]
pub struct ColorOption {
    pub ptr: usize,
    pub weechat_ptr: usize,
}

impl ConfigOption for StringOption {
    open spec fn option_ptr(&self) -> usize {
        self.ptr
    }

    open spec fn plugin_ptr(&self) -> usize {
        self.weechat_ptr
    }

    fn from_ptrs(option_ptr: usize, weechat_ptr: usize) -> (option: Self) {
        StringOption { ptr: option_ptr, weechat_ptr }
    }

    fn as_ptr(&self) -> (ptr: usize) {
        self.ptr
    }
}

impl ConfigOption for BooleanOption {
    open spec fn option_ptr(&self) -> usize {
        self.ptr
    }

    open spec fn plugin_ptr(&self) -> usize {
        self.weechat_ptr
    }

    fn from_ptrs(option_ptr: usize, weechat_ptr: usize) -> (option: Self) {
        BooleanOption { ptr: option_ptr, weechat_ptr }
    }

    fn as_ptr(&self) -> (ptr: usize) {
        self.ptr
    }
}

impl ConfigOption for IntegerOption {
    open spec fn option_ptr(&self) -> usize {
        self.ptr
    }

    open spec fn plugin_ptr(&self) -> usize {
        self.weechat_ptr
    }

    fn from_ptrs(option_ptr: usize, weechat_ptr: usize) -> (option: Self) {
        IntegerOption { ptr: option_ptr, weechat_ptr }
    }

    fn as_ptr(&self) -> (ptr: usize) {
        self.ptr
    }
}

impl ConfigOption for ColorOption {
    open spec fn option_ptr(&self) -> usize {
        self.ptr
    }

    open spec fn plugin_ptr(&self) -> usize {
        self.weechat_ptr
    }

    fn from_ptrs(option_ptr: usize, weechat_ptr: usize) -> (option: Self) {
        ColorOption { ptr: option_ptr, weechat_ptr }
    }

    fn as_ptr(&self) -> (ptr: usize) {
        self.ptr
    }
}

/// One callback phase of an option: the callback, if one was given, and the
/// state slot that it alone sees.
pub struct Phase<D, F> {
    pub callback: Option<F>,
    pub data: D,
}

/// A phase that has no callback and no state.
#[derive(Clone, Copy, Debug, PartialEq, Eq)]
pub struct NoPhase;

/// What every phase of a context box answers.
pub trait CallbackPhase: Sized {
    /// Whether the phase has a callback. Only then is its trampoline handed
    /// to the host.
    spec fn installed(&self) -> bool;

    /// Whether the phase has a callback.
    fn is_installed(&self) -> (installed: bool)
        ensures
            installed == self.installed(),
    ;
}

/// A phase that the host may fire before it commits a new value to an option
/// of type `T`.
pub trait CheckPhase<T>: CallbackPhase {
    /// The callback, if there is one, may be called on every input.
    spec fn check_callable(&self) -> bool;
}

/// A phase that the host may fire with an option of type `T` alone: after a
/// change, or before the option is removed.
pub trait NotifyPhase<T>: CallbackPhase {
    /// The callback, if there is one, may be called on every input.
    spec fn notify_callable(&self) -> bool;
}

impl CallbackPhase for NoPhase {
    open spec fn installed(&self) -> bool {
        false
    }

    fn is_installed(&self) -> (installed: bool) {
        false
    }
}

impl<T> CheckPhase<T> for NoPhase {
    open spec fn check_callable(&self) -> bool {
        true
    }
}

impl<T> NotifyPhase<T> for NoPhase {
    open spec fn notify_callable(&self) -> bool {
        true
    }
}

impl<D, F> CallbackPhase for Phase<D, F> {
    open spec fn installed(&self) -> bool {
        self.callback is Some
    }

    fn is_installed(&self) -> (installed: bool) {
        self.callback.is_some()
    }
}

impl<T, D, F: Fn(&mut D, &T, &str) -> bool> CheckPhase<T> for Phase<D, F> {
    open spec fn check_callable(&self) -> bool {
        self.callback matches Some(f) ==> forall|data: &mut D, option: &T, value: &str|
            call_requires(f, (data, option, value))
    }
}

impl<T, D, F: Fn(&mut D, &T)> NotifyPhase<T> for Phase<D, F> {
    open spec fn notify_callable(&self) -> bool {
        self.callback matches Some(f) ==> forall|data: &mut D, option: &T|
            call_requires(f, (data, option))
    }
}

impl<D: Default, F> Phase<D, F> {
    /// A check phase with the given callback and state; the state is
    /// defaulted where none is given. The callback answers whether the
    /// proposed value may be committed.
    pub fn checking<T>(callback: Option<F>, data: Option<D>) -> (phase: Phase<D, F>) where
        F: Fn(&mut D, &T, &str) -> bool,

        requires
            callback matches Some(f) ==> forall|data: &mut D, option: &T, value: &str|
                call_requires(f, (data, option, value)),
        ensures
            phase.callback == callback,
            data matches Some(d) ==> phase.data == d,
            data is None ==> call_ensures(D::default, (), phase.data),
            <Phase<D, F> as CheckPhase<T>>::check_callable(&phase),
    {
        Phase { callback, data: data.unwrap_or_default() }
    }

    /// A change or delete phase with the given callback and state; the
    /// state is defaulted where none is given.
    pub fn notifying<T>(callback: Option<F>, data: Option<D>) -> (phase: Phase<D, F>) where
        F: Fn(&mut D, &T),

        requires
            callback matches Some(f) ==> forall|data: &mut D, option: &T|
                call_requires(f, (data, option)),
        ensures
            phase.callback == callback,
            data matches Some(d) ==> phase.data == d,
            data is None ==> call_ensures(D::default, (), phase.data),
            <Phase<D, F> as NotifyPhase<T>>::notify_callable(&phase),
    {
        Phase { callback, data: data.unwrap_or_default() }
    }
}

impl<D, F> Phase<D, F> {
    /// Fires the phase before a new value is committed: calls the callback,
    /// if there is one, with the phase's state, the option and the proposed
    /// value, and gives its verdict. A phase without a callback accepts
    /// every value and does nothing else.
    pub fn check<T>(&mut self, option: &T, value: &str) -> (accepted: bool) where
        F: Fn(&mut D, &T, &str) -> bool,

        requires
            old(self).check_callable(),
        ensures
            final(self).callback == old(self).callback,
            old(self).callback is None ==> accepted && final(self).data == old(self).data,
            old(self).callback matches Some(f) ==> exists|data: &mut D|
                *data == old(self).data && *final(data) == final(self).data
                    && #[trigger] call_ensures(f, (data, option, value), accepted),
    {
        match &self.callback {
            Some(callback) => callback(&mut self.data, option, value),
            None => true,
        }
    }

    /// Fires the phase with the option alone: calls the callback, if there
    /// is one, with the phase's state and the option. A phase without a
    /// callback does nothing.
    pub fn notify<T>(&mut self, option: &T) where F: Fn(&mut D, &T)
        requires
            old(self).notify_callable(),
        ensures
            final(self).callback == old(self).callback,
            old(self).callback is None ==> final(self).data == old(self).data,
            old(self).callback matches Some(f) ==> exists|data: &mut D|
                *data == old(self).data && *final(data) == final(self).data
                    && #[trigger] call_ensures(f, (data, option), ()),
    {
        match &self.callback {
            Some(callback) => {
                callback(&mut self.data, option);
            },
            None => {},
        }
    }
}

/// The context box of an option: the plugin context and the three callback
/// phases, each with a state slot of its own. One box serves the three
/// trampolines of the option.
pub struct OptionPointers<T, PA, PB, PC> {
    /// The plugin context through which the option's accessors are built.
    pub weechat_ptr: usize,
    /// The phase fired before a new value is committed.
    pub check: PA,
    /// The phase fired after a value was committed.
    pub change: PB,
    /// The phase fired before the option is removed.
    pub delete: PC,
    /// The type of the accessor that the callbacks get.
    pub option: core::marker::PhantomData<T>,
}

impl<T, PA: CheckPhase<T>, PB: NotifyPhase<T>, PC: NotifyPhase<T>> OptionPointers<T, PA, PB, PC> {
    /// Every callback in the box may be called on every input.
    pub open spec fn callable(self) -> bool {
        &&& self.check.check_callable()
        &&& self.change.notify_callable()
        &&& self.delete.notify_callable()
    }
}

impl<T, A, FA, PB, PC> OptionPointers<T, Phase<A, FA>, PB, PC> where
    T: ConfigOption,
    FA: Fn(&mut A, &T, &str) -> bool,
    PB: NotifyPhase<T>,
    PC: NotifyPhase<T>,
 {
    /// What the check trampoline does when the host proposes `value` for the
    /// option behind `option_pointer`: it calls the check callback, if there
    /// is one, with the check state, the option's accessor and the value,
    /// and answers the host with what the callback found: accept or reject.
    /// A box that has no check callback accepts every value.
    ///
    /// Nothing but the check state changes. The option's value is not
    /// touched: to commit an accepted value is the host's part.
    pub fn fire_check(&mut self, option_pointer: usize, value: &str) -> (rc: i32)
        requires
            old(self).callable(),
        ensures
            final(self).callable(),
            final(self).weechat_ptr == old(self).weechat_ptr,
            final(self).change == old(self).change,
            final(self).delete == old(self).delete,
            final(self).check.callback == old(self).check.callback,
            old(self).check.callback is None ==> rc == OPTION_CHECK_ACCEPT
                && final(self).check.data == old(self).check.data,
            old(self).check.callback matches Some(f) ==> exists|
                data: &mut A,
                option: &T,
                accepted: bool,
            |
                *data == old(self).check.data && *final(data) == final(self).check.data
                    && option.option_ptr() == option_pointer
                    && option.plugin_ptr() == old(self).weechat_ptr
                    && #[trigger] call_ensures(f, (data, option, value), accepted)
                    && rc == check_status(accepted),
    {
        let option = T::from_ptrs(option_pointer, self.weechat_ptr);
        if self.check.check(&option, value) {
            OPTION_CHECK_ACCEPT
        } else {
            OPTION_CHECK_REJECT
        }
    }
}

impl<T, PA, B, FB, PC> OptionPointers<T, PA, Phase<B, FB>, PC> where
    T: ConfigOption,
    PA: CheckPhase<T>,
    FB: Fn(&mut B, &T),
    PC: NotifyPhase<T>,
 {
    /// What the change trampoline does when the host has committed a new
    /// value to the option behind `option_pointer`: it calls the change
    /// callback, if there is one, with the change state and the option's
    /// accessor. The other phases are left alone.
    pub fn fire_change(&mut self, option_pointer: usize)
        requires
            old(self).callable(),
        ensures
            final(self).callable(),
            final(self).weechat_ptr == old(self).weechat_ptr,
            final(self).check == old(self).check,
            final(self).delete == old(self).delete,
            final(self).change.callback == old(self).change.callback,
            old(self).change.callback is None ==> final(self).change.data == old(self).change.data,
            old(self).change.callback matches Some(f) ==> exists|data: &mut B, option: &T|
                *data == old(self).change.data && *final(data) == final(self).change.data
                    && option.option_ptr() == option_pointer
                    && option.plugin_ptr() == old(self).weechat_ptr
                    && #[trigger] call_ensures(f, (data, option), ()),
    {
        let option = T::from_ptrs(option_pointer, self.weechat_ptr);
        self.change.notify(&option);
    }
}

impl<T, PA, PB, C, FC> OptionPointers<T, PA, PB, Phase<C, FC>> where
    T: ConfigOption,
    PA: CheckPhase<T>,
    PB: NotifyPhase<T>,
    FC: Fn(&mut C, &T),
 {
    /// What the delete trampoline does when the host is about to remove the
    /// option behind `option_pointer`: it calls the delete callback, if
    /// there is one, with the delete state and the option's accessor. The
    /// other phases are left alone.
    pub fn fire_delete(&mut self, option_pointer: usize)
        requires
            old(self).callable(),
        ensures
            final(self).callable(),
            final(self).weechat_ptr == old(self).weechat_ptr,
            final(self).check == old(self).check,
            final(self).change == old(self).change,
            final(self).delete.callback == old(self).delete.callback,
            old(self).delete.callback is None ==> final(self).delete.data == old(self).delete.data,
            old(self).delete.callback matches Some(f) ==> exists|data: &mut C, option: &T|
                *data == old(self).delete.data && *final(data) == final(self).delete.data
                    && option.option_ptr() == option_pointer
                    && option.plugin_ptr() == old(self).weechat_ptr
                    && #[trigger] call_ensures(f, (data, option), ()),
    {
        let option = T::from_ptrs(option_pointer, self.weechat_ptr);
        self.delete.notify(&option);
    }
}

/// What the host is told about a new option, and which phases get a
/// trampoline.
pub open spec fn registers_option(
    call: HostCall,
    config: usize,
    section: usize,
    description: OptionDescriptionView,
    check: bool,
    change: bool,
    delete: bool,
) -> bool {
    &&& call matches HostCall::ConfigNewOption {
        config: c,
        section: s,
        name,
        option_type,
        description: d,
        string_values,
        min,
        max,
        default_value,
        value,
        null_allowed,
        check_callback,
        change_callback,
        delete_callback,
    }
    &&& c == config
    &&& s == section
    &&& name@ == description.name
    &&& option_type@ == description.option_type.name()
    &&& d@ == description.description
    &&& string_values@ == description.string_values
    &&& min == description.min
    &&& max == description.max
    &&& default_value@ == description.default_value
    &&& value@ == description.value
    &&& null_allowed == flag(description.null_allowed)
    &&& check_callback == check
    &&& change_callback == change
    &&& delete_callback == delete
}

impl ConfigSection {
    /// Prepares an option of any type with up to three callback phases: a
    /// check before a value is committed, a notification after a change, and
    /// a notification before the option is removed.
    ///
    /// The three phases go into one context box. The call tells the host the
    /// description, each text as given, and hands it a trampoline for exactly
    /// the phases that have a callback.
    pub fn new_option<T, PA, PB, PC>(
        &self,
        option_description: OptionDescription,
        check: PA,
        change: PB,
        delete: PC,
    ) -> (registration: Registration<OptionPointers<T, PA, PB, PC>>) where
        T: ConfigOption,
        PA: CheckPhase<T>,
        PB: NotifyPhase<T>,
        PC: NotifyPhase<T>,

        requires
            check.check_callable(),
            change.notify_callable(),
            delete.notify_callable(),
        ensures
            registers_option(
                registration.call,
                self.config_ptr(),
                self.ptr(),
                option_description@,
                check.installed(),
                change.installed(),
                delete.installed(),
            ),
            registration.weechat_ptr == self.weechat_ptr(),
            registration.context.weechat_ptr == self.weechat_ptr(),
            registration.context.check == check,
            registration.context.change == change,
            registration.context.delete == delete,
            registration.context.callable(),
    {
        let call = HostCall::ConfigNewOption {
            config: self.config_ptr(),
            section: self.ptr(),
            name: option_description.name.to_owned(),
            option_type: option_description.option_type.as_str().to_owned(),
            description: option_description.description.to_owned(),
            string_values: option_description.string_values.to_owned(),
            min: option_description.min,
            max: option_description.max,
            default_value: option_description.default_value.to_owned(),
            value: option_description.value.to_owned(),
            null_allowed: encode_flag(option_description.null_allowed),
            check_callback: check.is_installed(),
            change_callback: change.is_installed(),
            delete_callback: delete.is_installed(),
        };
        let option_pointers = Box::new(
            OptionPointers::<T, PA, PB, PC> {
                weechat_ptr: self.weechat_ptr(),
                check,
                change,
                delete,
                option: core::marker::PhantomData,
            },
        );
        Registration { call, weechat_ptr: self.weechat_ptr(), context: option_pointers }
    }

    /// Prepares a text option. A change callback, where one is given, is
    /// called with `change_cb_data` (or a default state) after each change.
    pub fn new_string_option<D, F>(
        &self,
        name: &str,
        description: &str,
        default_value: &str,
        value: &str,
        null_allowed: bool,
        change_cb: Option<F>,
        change_cb_data: Option<D>,
    ) -> (registration: Registration<OptionPointers<StringOption, NoPhase, Phase<D, F>, NoPhase>>) where
        D: Default,
        F: Fn(&mut D, &StringOption),

        requires
            change_cb matches Some(f) ==> forall|data: &mut D, option: &StringOption|
                call_requires(f, (data, option)),
        ensures
            registers_option(
                registration.call,
                self.config_ptr(),
                self.ptr(),
                (OptionDescriptionView {
                    name: name@,
                    option_type: OptionType::String,
                    description: description@,
                    string_values: Seq::empty(),
                    min: 0,
                    max: 0,
                    default_value: default_value@,
                    value: value@,
                    null_allowed,
                }),
                false,
                change_cb is Some,
                false,
            ),
            registration.weechat_ptr == self.weechat_ptr(),
            registration.context.weechat_ptr == self.weechat_ptr(),
            registration.context.change.callback == change_cb,
            change_cb_data matches Some(d) ==> registration.context.change.data == d,
            change_cb_data is None ==> call_ensures(
                D::default,
                (),
                registration.context.change.data,
            ),
            registration.context.callable(),
    {
        proof {
            reveal_strlit("");
            assert(""@ =~= Seq::<char>::empty());
        }
        self.new_option(
            OptionDescription {
                name,
                option_type: OptionType::String,
                description,
                string_values: "",
                min: 0,
                max: 0,
                default_value,
                value,
                null_allowed,
            },
            NoPhase,
            Phase::notifying(change_cb, change_cb_data),
            NoPhase,
        )
    }

    /// Prepares a boolean option. The two values go to the host as the
    /// tokens `on` and `off`. A change callback, where one is given, is
    /// called with `change_cb_data` (or a default state) after each change.
    pub fn new_boolean_option<D, F>(
        &self,
        name: &str,
        description: &str,
        default_value: bool,
        value: bool,
        null_allowed: bool,
        change_cb: Option<F>,
        change_cb_data: Option<D>,
    ) -> (registration: Registration<
        OptionPointers<BooleanOption, NoPhase, Phase<D, F>, NoPhase>,
    >) where D: Default, F: Fn(&mut D, &BooleanOption)
        requires
            change_cb matches Some(f) ==> forall|data: &mut D, option: &BooleanOption|
                call_requires(f, (data, option)),
        ensures
            registers_option(
                registration.call,
                self.config_ptr(),
                self.ptr(),
                (OptionDescriptionView {
                    name: name@,
                    option_type: OptionType::Boolean,
                    description: description@,
                    string_values: Seq::empty(),
                    min: 0,
                    max: 0,
                    default_value: boolean_token(default_value),
                    value: boolean_token(value),
                    null_allowed,
                }),
                false,
                change_cb is Some,
                false,
            ),
            registration.weechat_ptr == self.weechat_ptr(),
            registration.context.weechat_ptr == self.weechat_ptr(),
            registration.context.change.callback == change_cb,
            change_cb_data matches Some(d) ==> registration.context.change.data == d,
            change_cb_data is None ==> call_ensures(
                D::default,
                (),
                registration.context.change.data,
            ),
            registration.context.callable(),
    {
        proof {
            reveal_strlit("");
            assert(""@ =~= Seq::<char>::empty());
        }
        let value = encode_boolean(value);
        let default_value = encode_boolean(default_value);
        self.new_option(
            OptionDescription {
                name,
                option_type: OptionType::Boolean,
                description,
                string_values: "",
                min: 0,
                max: 0,
                default_value,
                value,
                null_allowed,
            },
            NoPhase,
            Phase::notifying(change_cb, change_cb_data),
            NoPhase,
        )
    }

    /// Prepares an integer option. The values go to the host as the texts
    /// given: decimal numbers between `min` and `max`, or, where
    /// `string_values` lists the legal values, one of those.
    /// A change callback, where one is given, is called with
    /// `change_cb_data` (or a default state) after each change.
    pub fn new_integer_option<D, F>(
        &self,
        name: &str,
        description: &str,
        string_values: &str,
        min: i32,
        max: i32,
        default_value: &str,
        value: &str,
        null_allowed: bool,
        change_cb: Option<F>,
        change_cb_data: Option<D>,
    ) -> (registration: Registration<
        OptionPointers<IntegerOption, NoPhase, Phase<D, F>, NoPhase>,
    >) where D: Default, F: Fn(&mut D, &IntegerOption)
        requires
            change_cb matches Some(f) ==> forall|data: &mut D, option: &IntegerOption|
                call_requires(f, (data, option)),
        ensures
            registers_option(
                registration.call,
                self.config_ptr(),
                self.ptr(),
                (OptionDescriptionView {
                    name: name@,
                    option_type: OptionType::Integer,
                    description: description@,
                    string_values: string_values@,
                    min,
                    max,
                    default_value: default_value@,
                    value: value@,
                    null_allowed,
                }),
                false,
                change_cb is Some,
                false,
            ),
            registration.weechat_ptr == self.weechat_ptr(),
            registration.context.weechat_ptr == self.weechat_ptr(),
            registration.context.change.callback == change_cb,
            change_cb_data matches Some(d) ==> registration.context.change.data == d,
            change_cb_data is None ==> call_ensures(
                D::default,
                (),
                registration.context.change.data,
            ),
            registration.context.callable(),
    {
        self.new_option(
            OptionDescription {
                name,
                option_type: OptionType::Integer,
                description,
                string_values,
                min,
                max,
                default_value,
                value,
                null_allowed,
            },
            NoPhase,
            Phase::notifying(change_cb, change_cb_data),
            NoPhase,
        )
    }

    /// Prepares a color option. A change callback, where one is given, is
    /// called with `change_cb_data` (or a default state) after each change.
    pub fn new_color_option<D, F>(
        &self,
        name: &str,
        description: &str,
        default_value: &str,
        value: &str,
        null_allowed: bool,
        change_cb: Option<F>,
        change_cb_data: Option<D>,
    ) -> (registration: Registration<OptionPointers<ColorOption, NoPhase, Phase<D, F>, NoPhase>>) where
        D: Default,
        F: Fn(&mut D, &ColorOption),

        requires
            change_cb matches Some(f) ==> forall|data: &mut D, option: &ColorOption|
                call_requires(f, (data, option)),
        ensures
            registers_option(
                registration.call,
                self.config_ptr(),
                self.ptr(),
                (OptionDescriptionView {
                    name: name@,
                    option_type: OptionType::Color,
                    description: description@,
                    string_values: Seq::empty(),
                    min: 0,
                    max: 0,
                    default_value: default_value@,
                    value: value@,
                    null_allowed,
                }),
                false,
                change_cb is Some,
                false,
            ),
            registration.weechat_ptr == self.weechat_ptr(),
            registration.context.weechat_ptr == self.weechat_ptr(),
            registration.context.change.callback == change_cb,
            change_cb_data matches Some(d) ==> registration.context.change.data == d,
            change_cb_data is None ==> call_ensures(
                D::default,
                (),
                registration.context.change.data,
            ),
            registration.context.callable(),
    {
        proof {
            reveal_strlit("");
            assert(""@ =~= Seq::<char>::empty());
        }
        self.new_option(
            OptionDescription {
                name,
                option_type: OptionType::Color,
                description,
                string_values: "",
                min: 0,
                max: 0,
                default_value,
                value,
                null_allowed,
            },
            NoPhase,
            Phase::notifying(change_cb, change_cb_data),
            NoPhase,
        )
    }
}

/// The section that an option registration names, or the null handle where
/// the call registers no option.
pub open spec fn registered_section(call: HostCall) -> usize {
    match call {
        HostCall::ConfigNewOption { section, .. } => section,
        _ => 0,
    }
}

/// An option that is registered with the host.
///
/// It cannot be copied, and freeing it consumes it. It can be freed only
/// against the configuration file that holds its section: once the section
/// or the file is freed, the host has freed the option with it, and what is
/// left of the handle is the context box.
pub struct ConfigOptionHandle<T, PA, PB, PC> {
    /// The accessor for the option.
    pub option: T,
    /// The handle of the section that the option was registered in.
    pub section: usize,
    /// The context box whose address the host holds.
    pub option_data: Box<OptionPointers<T, PA, PB, PC>>,
}

impl<T: ConfigOption, PA, PB, PC> ConfigOptionHandle<T, PA, PB, PC> {
    /// Frees the option, if it is still the file's to free.
    ///
    /// Where `config` holds the option's section and the section holds the
    /// option, the result is the call that frees it, and the section holds
    /// it no longer. Otherwise the host has freed the option already, with
    /// its section: there is no call and `config` stays as it is.
    ///
    /// The call, where there is one, is to be made first; the context box
    /// that comes with it is to be dropped only afterwards.
    pub fn free<U, G>(self, config: &mut Config<U, G>) -> (end: (
        Option<HostCall>,
        Box<OptionPointers<T, PA, PB, PC>>,
    ))
        ensures
            end.0 == option_free_call(
                old(config).sections(),
                self.section,
                self.option.option_ptr(),
            ),
            end.1 == self.option_data,
            option_forgotten(
                old(config).sections(),
                final(config).sections(),
                self.section,
                self.option.option_ptr(),
            ),
            final(config).ptr() == old(config).ptr(),
            final(config).weechat_ptr() == old(config).weechat_ptr(),
            final(config).config_data() == old(config).config_data(),
            old(config).wf() ==> final(config).wf(),
    {
        let option = self.option.as_ptr();
        let call = if config.forget_option(self.section, option) {
            Some(HostCall::ConfigOptionFree { option })
        } else {
            None
        };
        (call, self.option_data)
    }
}

impl<T: ConfigOption, PA, PB, PC> Registration<OptionPointers<T, PA, PB, PC>> {
    /// Completes the registration with the handle that the host answered,
    /// in the configuration file that holds the option's section.
    ///
    /// A null handle means that the host refused: the context box is dropped
    /// at once, there is no option, and `config` stays as it is. Any other
    /// handle gives the option, which owns the box from here on, and the
    /// section notes the option as one of its own.
    pub fn complete<U, G>(self, config: &mut Config<U, G>, option_ptr: usize) -> (option: Option<
        ConfigOptionHandle<T, PA, PB, PC>,
    >)
        ensures
            option_ptr == 0 ==> option is None && final(config).sections() == old(
                config,
            ).sections(),
            option_ptr != 0 ==> (option matches Some(o) && o.option.option_ptr() == option_ptr
                && o.option.plugin_ptr() == self.weechat_ptr && o.section == registered_section(
                self.call,
            ) && o.option_data == self.context && option_recorded(
                old(config).sections(),
                final(config).sections(),
                registered_section(self.call),
                option_ptr,
            )),
            final(config).ptr() == old(config).ptr(),
            final(config).weechat_ptr() == old(config).weechat_ptr(),
            final(config).config_data() == old(config).config_data(),
            old(config).wf() ==> final(config).wf(),
    {
        if option_ptr == 0 {
            return None;
        }
        let section: usize = match &self.call {
            HostCall::ConfigNewOption { section, .. } => *section,
            _ => 0,
        };
        config.record_option(section, option_ptr);
        Some(
            ConfigOptionHandle {
                option: T::from_ptrs(option_ptr, self.weechat_ptr),
                section,
                option_data: self.context,
            },
        )
    }
}

} // verus!
