//! Configuration files, their sections and the options in them.

use crate::host::{
    encode_flag, flag, lemma_released_handles_push, released_handles, HostCall, Registration,
    Weechat, WEECHAT_RC_OK,
};
use vstd::prelude::*;

verus! {

/// The context box of a configuration file: the reload callback, if one was
/// given, and its state.
pub struct ConfigPointers<T, F> {
    pub reload_cb: Option<F>,
    pub reload_data: T,
}

impl<T, F: Fn(&mut T)> ConfigPointers<T, F> {
    /// The reload callback, if there is one, may be called on every input.
    pub open spec fn callable(self) -> bool {
        self.reload_cb matches Some(f) ==> forall|data: &mut T| call_requires(f, (data,))
    }

    /// What the reload trampoline does when the host reloads the file: it
    /// calls the reload callback, if there is one, with the reload state, and
    /// tells the host "handled".
    pub fn fire_reload(&mut self) -> (rc: i32)
        requires
            old(self).callable(),
        ensures
            rc == WEECHAT_RC_OK,
            final(self).reload_cb == old(self).reload_cb,
            old(self).reload_cb is None ==> final(self).reload_data == old(self).reload_data,
            old(self).reload_cb matches Some(f) ==> exists|data: &mut T|
                *data == old(self).reload_data && *final(data) == final(self).reload_data
                    && #[trigger] call_ensures(f, (data,), ()),
    {
        match &self.reload_cb {
            Some(callback) => {
                callback(&mut self.reload_data);
            },
            None => {},
        }
        WEECHAT_RC_OK
    }
}

/// A section of a configuration file, registered with the host.
///
/// It cannot be copied: a second handle would free the section twice.
pub struct ConfigSection {
    name: String,
    ptr: usize,
    config_ptr: usize,
    weechat_ptr: usize,
    options: Vec<usize>,
}

/// A position from `from` on, where no section before `from` has the name.
proof fn position_from(sections: Seq<ConfigSection>, name: Seq<char>, from: int) -> (at: int)
    requires
        0 <= from <= sections.len(),
        forall|j: int| 0 <= j < from ==> (#[trigger] sections[j]).spec_name() != name,
    ensures
        is_position(sections, name, at),
    decreases sections.len() - from,
{
    if from == sections.len() || sections[from].spec_name() == name {
        from
    } else {
        position_from(sections, name, from + 1)
    }
}

/// `position` is such a position, whatever the sections are.
pub proof fn lemma_position(sections: Seq<ConfigSection>, name: Seq<char>)
    ensures
        is_position(sections, name, position(sections, name)),
{
    let at = position_from(sections, name, 0);
    lemma_position_unique(sections, name, at);
}

impl ConfigSection {
    /// The section's name.
    pub closed spec fn spec_name(&self) -> Seq<char> {
        self.name@
    }

    /// The handle that the host assigned to the section.
    pub closed spec fn spec_ptr(&self) -> usize {
        self.ptr
    }

    /// The handle of the configuration file that holds the section.
    pub closed spec fn spec_config_ptr(&self) -> usize {
        self.config_ptr
    }

    /// The plugin context.
    pub closed spec fn spec_weechat_ptr(&self) -> usize {
        self.weechat_ptr
    }

    /// The handles of the options that were registered in the section
    /// through this layer and not freed since, oldest first.
    pub closed spec fn spec_options(&self) -> Seq<usize> {
        self.options@
    }

    /// The handles of the options that were registered in the section
    /// through this layer and not freed since, oldest first.
    pub fn options(&self) -> (options: &Vec<usize>)
        ensures
            options@ == self.spec_options(),
    {
        &self.options
    }

    /// The section's name.
    pub fn name(&self) -> (name: &String)
        ensures
            name@ == self.spec_name(),
    {
        &self.name
    }

    /// The handle that the host assigned to the section.
    #[verifier::when_used_as_spec(spec_ptr)]
    pub fn ptr(&self) -> (ptr: usize)
        ensures
            ptr == self.spec_ptr(),
    {
        self.ptr
    }

    /// The handle of the configuration file that holds the section.
    #[verifier::when_used_as_spec(spec_config_ptr)]
    pub fn config_ptr(&self) -> (ptr: usize)
        ensures
            ptr == self.spec_config_ptr(),
    {
        self.config_ptr
    }

    /// The plugin context.
    #[verifier::when_used_as_spec(spec_weechat_ptr)]
    pub fn weechat_ptr(&self) -> (ptr: usize)
        ensures
            ptr == self.spec_weechat_ptr(),
    {
        self.weechat_ptr
    }

    /// Frees the section: first the options that are left in it, then the
    /// section itself.
    pub fn free(self) -> (calls: Vec<HostCall>)
        ensures
            calls@ == sections_release_calls(seq![self.ptr()]),
    {
        let mut calls: Vec<HostCall> = Vec::new();
        calls.push(HostCall::ConfigSectionFreeOptions { section: self.ptr });
        calls.push(HostCall::ConfigSectionFree { section: self.ptr });
        assert(calls@ =~= sections_release_calls(seq![self.ptr()]));
        calls
    }
}

/// What is asked of a new section.
///
/// The section callbacks are kept for the caller's sake only: no section
/// trampoline is handed to the host, so none of them is ever called.
pub struct ConfigSectionInfo<'a, T, F> {
    /// Name of the section.
    pub name: &'a str,
    /// Can the user create new options?
    pub user_can_add_options: bool,
    /// Can the user delete options?
    pub user_can_delete_option: bool,
    /// A function for an option of the section that is read from the disk.
    pub read_callback: Option<F>,
    /// State for the `read_callback`.
    pub read_callback_data: Option<T>,
    /// A function for the section being written to the disk.
    pub write_callback: Option<F>,
    /// State for the `write_callback`.
    pub write_callback_data: Option<T>,
    /// A function for the section's default values being written to the disk.
    pub write_default_callback: Option<F>,
    /// State for the `write_default_callback`.
    pub write_default_callback_data: Option<T>,
    /// A function for a new option being created in the section.
    pub create_option_callback: Option<F>,
    /// State for the `create_option_callback`.
    pub create_option_callback_data: Option<T>,
    /// A function for an option being deleted in the section.
    pub delete_option_callback: Option<F>,
    /// State for the `delete_option_callback`.
    pub delete_option_callback_data: Option<T>,
}

impl<'a, T, F> Default for ConfigSectionInfo<'a, T, F> {
    /// A section without a name, closed to the user, without callbacks.
    fn default() -> (info: Self)
        ensures
            info.name@ == Seq::<char>::empty(),
            !info.user_can_add_options,
            !info.user_can_delete_option,
            info.read_callback is None,
            info.read_callback_data is None,
            info.write_callback is None,
            info.write_callback_data is None,
            info.write_default_callback is None,
            info.write_default_callback_data is None,
            info.create_option_callback is None,
            info.create_option_callback_data is None,
            info.delete_option_callback is None,
            info.delete_option_callback_data is None,
    {
        proof {
            reveal_strlit("");
            assert(""@ =~= Seq::<char>::empty());
        }
        ConfigSectionInfo {
            name: "",
            user_can_add_options: false,
            user_can_delete_option: false,
            read_callback: None,
            read_callback_data: None,
            write_callback: None,
            write_callback_data: None,
            write_default_callback: None,
            write_default_callback_data: None,
            create_option_callback: None,
            create_option_callback_data: None,
            delete_option_callback: None,
            delete_option_callback_data: None,
        }
    }
}

/// The calls that release the sections behind `sections`, in order: for
/// each section, first its options are freed, then the section itself.
pub open spec fn sections_release_calls(sections: Seq<usize>) -> Seq<HostCall> {
    Seq::new(
        2 * sections.len(),
        |i: int|
            if i % 2 == 0 {
                HostCall::ConfigSectionFreeOptions { section: sections[i / 2] }
            } else {
                HostCall::ConfigSectionFree { section: sections[i / 2] }
            },
    )
}

/// The calls that release a configuration file with its sections: the
/// sections first, as `sections_release_calls` has them, and the file last.
pub open spec fn config_release_calls(config: usize, sections: Seq<usize>) -> Seq<HostCall> {
    sections_release_calls(sections).push(HostCall::ConfigFree { config })
}

/// Freeing sections releases each of them once, in their order: the calls
/// that free the options release no handle of their own.
pub proof fn lemma_sections_released_once(sections: Seq<usize>)
    ensures
        released_handles(sections_release_calls(sections)) == sections,
    decreases sections.len(),
{
    if sections.len() == 0 {
        assert(sections_release_calls(sections) =~= Seq::<HostCall>::empty());
        assert(released_handles(sections_release_calls(sections)) =~= sections);
    } else {
        let before = sections.drop_last();
        let section = sections.last();
        let options_freed = sections_release_calls(before).push(
            HostCall::ConfigSectionFreeOptions { section },
        );
        assert(sections_release_calls(sections) =~= options_freed.push(
            HostCall::ConfigSectionFree { section },
        ));
        lemma_sections_released_once(before);
        lemma_released_handles_push(
            sections_release_calls(before),
            HostCall::ConfigSectionFreeOptions { section },
        );
        lemma_released_handles_push(options_freed, HostCall::ConfigSectionFree { section });
        assert(before.push(section) =~= sections);
    }
}

/// No leak and no double free: freeing a configuration file releases every
/// section that was registered in it and the file itself, each exactly once,
/// so the host sees as many releases as there were registrations.
pub proof fn lemma_config_released_once(config: usize, sections: Seq<usize>)
    ensures
        released_handles(config_release_calls(config, sections)) == sections.push(config),
        released_handles(config_release_calls(config, sections)).len() == sections.len() + 1,
{
    lemma_sections_released_once(sections);
    lemma_released_handles_push(sections_release_calls(sections), HostCall::ConfigFree { config });
}

/// Children go before their parent: when a configuration file is freed, the
/// options of each section are freed just before the section, every section
/// is freed before the file, and the file is freed last and only once.
pub proof fn lemma_children_before_parent(config: usize, sections: Seq<usize>)
    ensures
        ({
            let calls = config_release_calls(config, sections);
            &&& calls.len() == 2 * sections.len() + 1
            &&& calls.last() == HostCall::ConfigFree { config }
            &&& forall|i: int|
                0 <= i < sections.len() ==> {
                    &&& #[trigger] calls[2 * i] == HostCall::ConfigSectionFreeOptions {
                        section: sections[i],
                    }
                    &&& calls[2 * i + 1] == HostCall::ConfigSectionFree { section: sections[i] }
                }
            &&& forall|k: int| 0 <= k < calls.len() - 1 ==> !((#[trigger] calls[k]) is ConfigFree)
        }),
{
    let calls = config_release_calls(config, sections);
    assert forall|i: int| 0 <= i < sections.len() implies {
        &&& #[trigger] calls[2 * i] == HostCall::ConfigSectionFreeOptions { section: sections[i] }
        &&& calls[2 * i + 1] == HostCall::ConfigSectionFree { section: sections[i] }
    } by {
        assert((2 * i) % 2 == 0);
        assert((2 * i) / 2 == i);
        assert((2 * i + 1) % 2 == 1);
        assert((2 * i + 1) / 2 == i);
    }
}

/// Whether `i` is where the first section named `name` stands in
/// `sections`, or the length of `sections` where none has the name.
pub open spec fn is_position(sections: Seq<ConfigSection>, name: Seq<char>, i: int) -> bool {
    &&& 0 <= i <= sections.len()
    &&& forall|j: int| 0 <= j < i ==> (#[trigger] sections[j]).spec_name() != name
    &&& i < sections.len() ==> sections[i].spec_name() == name
}

/// Where the first section named `name` stands in `sections`, or the length
/// of `sections` where none has the name.
pub open spec fn position(sections: Seq<ConfigSection>, name: Seq<char>) -> int {
    choose|i: int| is_position(sections, name, i)
}

/// There is one position, and `position` names it.
pub proof fn lemma_position_unique(sections: Seq<ConfigSection>, name: Seq<char>, i: int)
    requires
        is_position(sections, name, i),
    ensures
        position(sections, name) == i,
{
    let p = position(sections, name);
    assert(is_position(sections, name, p));
    if p < i {
        assert(sections[p].spec_name() != name);
    }
    if i < p {
        assert(sections[i].spec_name() != name);
    }
}

/// Whether `i` is where the first section with the handle `section` stands
/// in `sections`, or the length of `sections` where none has the handle.
pub open spec fn is_section_position(sections: Seq<ConfigSection>, section: usize, i: int) -> bool {
    &&& 0 <= i <= sections.len()
    &&& forall|j: int| 0 <= j < i ==> (#[trigger] sections[j]).spec_ptr() != section
    &&& i < sections.len() ==> sections[i].spec_ptr() == section
}

/// Where the first section with the handle `section` stands in `sections`,
/// or the length of `sections` where none has the handle.
pub open spec fn section_position(sections: Seq<ConfigSection>, section: usize) -> int {
    choose|i: int| is_section_position(sections, section, i)
}

/// There is one such position, and `section_position` names it.
pub proof fn lemma_section_position_unique(sections: Seq<ConfigSection>, section: usize, i: int)
    requires
        is_section_position(sections, section, i),
    ensures
        section_position(sections, section) == i,
{
    let p = section_position(sections, section);
    assert(is_section_position(sections, section, p));
    if p < i {
        assert(sections[p].spec_ptr() != section);
    }
    if i < p {
        assert(sections[i].spec_ptr() != section);
    }
}

/// A position from `from` on, where no section before `from` has the
/// handle.
proof fn section_position_from(sections: Seq<ConfigSection>, section: usize, from: int) -> (at: int)
    requires
        0 <= from <= sections.len(),
        forall|j: int| 0 <= j < from ==> (#[trigger] sections[j]).spec_ptr() != section,
    ensures
        is_section_position(sections, section, at),
    decreases sections.len() - from,
{
    if from == sections.len() || sections[from].spec_ptr() == section {
        from
    } else {
        section_position_from(sections, section, from + 1)
    }
}

/// `section_position` is such a position, whatever the sections are.
pub proof fn lemma_section_position(sections: Seq<ConfigSection>, section: usize)
    ensures
        is_section_position(sections, section, section_position(sections, section)),
{
    let at = section_position_from(sections, section, 0);
    lemma_section_position_unique(sections, section, at);
}

/// `options` without the first `option` in it.
pub open spec fn without(options: Seq<usize>, option: usize) -> Seq<usize>
    decreases options.len(),
{
    if options.len() == 0 {
        options
    } else if options[0] == option {
        options.drop_first()
    } else {
        seq![options[0]] + without(options.drop_first(), option)
    }
}

/// Taking out the first `option` is removing what stands at the first place
/// that holds it.
pub proof fn lemma_without_is_remove(options: Seq<usize>, option: usize, k: int)
    requires
        0 <= k < options.len(),
        options[k] == option,
        forall|j: int| 0 <= j < k ==> options[j] != option,
    ensures
        without(options, option) == options.remove(k),
    decreases k,
{
    if k == 0 {
        assert(options.remove(0) =~= options.drop_first());
    } else {
        let rest = options.drop_first();
        assert(rest[k - 1] == option);
        assert forall|j: int| 0 <= j < k - 1 implies rest[j] != option by {
            assert(rest[j] == options[j + 1]);
        }
        lemma_without_is_remove(rest, option, k - 1);
        assert(options.remove(k) =~= seq![options[0]] + rest.remove(k - 1));
    }
}

/// The first place in `options` that holds `option`, or the length of
/// `options` where none does.
fn first_of(options: &Vec<usize>, option: usize) -> (k: usize)
    ensures
        k <= options@.len(),
        forall|j: int| 0 <= j < k ==> options@[j] != option,
        k < options@.len() ==> options@[k as int] == option,
{
    let mut k: usize = 0;
    while k < options.len()
        invariant
            k <= options@.len(),
            forall|j: int| 0 <= j < k ==> options@[j] != option,
        decreases options@.len() - k,
    {
        if options[k] == option {
            return k;
        }
        k += 1;
    }
    k
}

/// Whether the section with the handle `section` is among `sections` and
/// has `option` among its registered options.
pub open spec fn holds_option(sections: Seq<ConfigSection>, section: usize, option: usize) -> bool {
    let at = section_position(sections, section);
    at < sections.len() && sections[at].spec_options().contains(option)
}

/// Whether `after` is `before` with `options` for the registered options of
/// the section at `at`, and everything else as it was.
pub open spec fn options_replaced(
    before: Seq<ConfigSection>,
    after: Seq<ConfigSection>,
    at: int,
    options: Seq<usize>,
) -> bool {
    &&& after.len() == before.len()
    &&& forall|i: int| 0 <= i < before.len() && i != at ==> #[trigger] after[i] == before[i]
    &&& 0 <= at < before.len() ==> {
        &&& after[at].spec_name() == before[at].spec_name()
        &&& after[at].spec_ptr() == before[at].spec_ptr()
        &&& after[at].spec_config_ptr() == before[at].spec_config_ptr()
        &&& after[at].spec_weechat_ptr() == before[at].spec_weechat_ptr()
        &&& after[at].spec_options() == options
    }
}

/// Whether `after` is `before` with `option` added to the registered options
/// of the section with the handle `section`; where no section has the
/// handle, nothing is added.
pub open spec fn option_recorded(
    before: Seq<ConfigSection>,
    after: Seq<ConfigSection>,
    section: usize,
    option: usize,
) -> bool {
    let at = section_position(before, section);
    if at < before.len() {
        options_replaced(before, after, at, before[at].spec_options().push(option))
    } else {
        after == before
    }
}

/// Whether `after` is `before` with the first `option` taken out of the
/// registered options of the section with the handle `section`; where the
/// section is not there or does not hold the option, nothing changes.
pub open spec fn option_forgotten(
    before: Seq<ConfigSection>,
    after: Seq<ConfigSection>,
    section: usize,
    option: usize,
) -> bool {
    let at = section_position(before, section);
    if holds_option(before, section, option) {
        options_replaced(before, after, at, without(before[at].spec_options(), option))
    } else {
        after == before
    }
}

/// The call that frees `option` by its handle: there is one only while the
/// section with the handle `section` is among `sections` and holds the
/// option. Once the section is freed, the host has freed its options with
/// it.
pub open spec fn option_free_call(
    sections: Seq<ConfigSection>,
    section: usize,
    option: usize,
) -> Option<HostCall> {
    if holds_option(sections, section, option) {
        Some(HostCall::ConfigOptionFree { option })
    } else {
        None
    }
}

/// Adding an option that was not there and taking it out again leaves the
/// options as they were.
pub proof fn lemma_without_push(options: Seq<usize>, option: usize)
    requires
        !options.contains(option),
    ensures
        without(options.push(option), option) == options,
    decreases options.len(),
{
    if options.len() == 0 {
        assert(options.push(option).drop_first() =~= options);
    } else {
        let rest = options.drop_first();
        assert(options[0] != option);
        assert forall|i: int| 0 <= i < rest.len() implies rest[i] != option by {
            assert(rest[i] == options[i + 1]);
        }
        assert(options.push(option).drop_first() =~= rest.push(option));
        lemma_without_push(rest, option);
        assert(seq![options[0]] + rest =~= options);
    }
}

/// No leak and no double free for an option. Take an option that the host
/// registered in a section of the file under a handle that the section did
/// not hold. After `complete` its handle frees it with one call, which
/// releases that handle; after `free` there is no call left for it, and the
/// section holds what it held before.
pub proof fn lemma_option_released_once(
    registered_in: Seq<ConfigSection>,
    held: Seq<ConfigSection>,
    freed: Seq<ConfigSection>,
    section: usize,
    option: usize,
)
    requires
        section_position(registered_in, section) < registered_in.len(),
        !holds_option(registered_in, section, option),
        option_recorded(registered_in, held, section, option),
        option_forgotten(held, freed, section, option),
    ensures
        option_free_call(held, section, option) == Some(HostCall::ConfigOptionFree { option }),
        released_handles(seq![HostCall::ConfigOptionFree { option }]) == seq![option],
        option_free_call(freed, section, option) is None,
        options_replaced(
            registered_in,
            freed,
            section_position(registered_in, section),
            registered_in[section_position(registered_in, section)].spec_options(),
        ),
{
    let at = section_position(registered_in, section);
    let before = registered_in[at].spec_options();
    lemma_section_position(registered_in, section);
    assert(is_section_position(held, section, at)) by {
        assert forall|j: int| 0 <= j < at implies (#[trigger] held[j]).spec_ptr() != section by {
            assert(held[j] == registered_in[j]);
        }
    }
    lemma_section_position_unique(held, section, at);
    assert(held[at].spec_options().last() == option);
    assert(held[at].spec_options().contains(option));
    lemma_without_push(before, option);
    assert(is_section_position(freed, section, at)) by {
        assert forall|j: int| 0 <= j < at implies (#[trigger] freed[j]).spec_ptr() != section by {
            assert(freed[j] == held[j]);
        }
    }
    lemma_section_position_unique(freed, section, at);
    assert forall|i: int| 0 <= i < registered_in.len() && i != at implies #[trigger] freed[i]
        == registered_in[i] by {
        assert(freed[i] == held[i]);
        assert(held[i] == registered_in[i]);
    }
    let call = HostCall::ConfigOptionFree { option };
    assert(seq![call].drop_last() =~= Seq::<HostCall>::empty());
    assert(released_handles(seq![call].drop_last()) =~= Seq::<usize>::empty());
    assert(released_handles(seq![call]) =~= seq![option]);
}

/// A configuration file that is registered with the host, with its
/// sections.
///
/// It cannot be copied, and freeing it consumes it, sections included.
pub struct Config<T, F> {
    ptr: usize,
    weechat_ptr: usize,
    config_data: Box<ConfigPointers<T, F>>,
    sections: Vec<ConfigSection>,
}

/// What the host is told about a new configuration file.
pub open spec fn registers_config(
    call: HostCall,
    plugin: usize,
    config_name: Seq<char>,
    reload: bool,
) -> bool {
    &&& call matches HostCall::ConfigNew { plugin: p, name, reload_callback }
    &&& p == plugin
    &&& name@ == config_name
    &&& reload_callback == reload
}

/// What the host is told about a new section.
pub open spec fn registers_section(
    call: HostCall,
    config: usize,
    section_name: Seq<char>,
    user_can_add: bool,
    user_can_delete: bool,
) -> bool {
    &&& call matches HostCall::ConfigNewSection {
        config: c,
        name,
        user_can_add_options,
        user_can_delete_options,
    }
    &&& c == config
    &&& name@ == section_name
    &&& user_can_add_options == flag(user_can_add)
    &&& user_can_delete_options == flag(user_can_delete)
}

impl Weechat {
    /// Prepares a new configuration file named `name`.
    ///
    /// The context box holds the reload callback and its state,
    /// `reload_data` or a default state where none is given. The reload
    /// trampoline is handed to the host only where there is a callback. The
    /// file exists once the registration is completed, and until it is
    /// freed.
    pub fn config_new<T, F>(
        &self,
        name: &str,
        reload_callback: Option<F>,
        reload_data: Option<T>,
    ) -> (registration: Registration<ConfigPointers<T, F>>) where T: Default, F: Fn(&mut T)
        requires
            reload_callback matches Some(f) ==> forall|data: &mut T| call_requires(f, (data,)),
        ensures
            registers_config(registration.call, self.ptr, name@, reload_callback is Some),
            registration.weechat_ptr == self.ptr,
            registration.context.reload_cb == reload_callback,
            reload_data matches Some(d) ==> registration.context.reload_data == d,
            reload_data is None ==> call_ensures(
                T::default,
                (),
                registration.context.reload_data,
            ),
            registration.context.callable(),
    {
        let call = HostCall::ConfigNew {
            plugin: self.ptr,
            name: name.to_owned(),
            reload_callback: reload_callback.is_some(),
        };
        let config_pointers = Box::new(
            ConfigPointers { reload_cb: reload_callback, reload_data: reload_data.unwrap_or_default() },
        );
        Registration { call, weechat_ptr: self.ptr, context: config_pointers }
    }
}

impl<T, F> Registration<ConfigPointers<T, F>> {
    /// Completes the registration with the handle that the host answered.
    ///
    /// A null handle means that the host refused: the context box is dropped
    /// at once and there is no file. Any other handle gives the file,
    /// without sections, which owns the box from here on.
    pub fn complete(self, config_ptr: usize) -> (config: Option<Config<T, F>>)
        ensures
            config_ptr == 0 ==> config is None,
            config_ptr != 0 ==> (config matches Some(c) && c.ptr() == config_ptr && c.weechat_ptr()
                == self.weechat_ptr && *c.config_data() == *self.context && c.sections()
                == Seq::<ConfigSection>::empty() && c.wf()),
    {
        if config_ptr == 0 {
            None
        } else {
            Some(
                Config {
                    ptr: config_ptr,
                    weechat_ptr: self.weechat_ptr,
                    config_data: self.context,
                    sections: Vec::new(),
                },
            )
        }
    }
}

impl<T, F> Config<T, F> {
    /// The handle that the host assigned to the file.
    pub closed spec fn spec_ptr(&self) -> usize {
        self.ptr
    }

    /// The plugin context.
    pub closed spec fn spec_weechat_ptr(&self) -> usize {
        self.weechat_ptr
    }

    /// The context box whose address the host holds.
    pub closed spec fn spec_config_data(&self) -> &ConfigPointers<T, F> {
        &*self.config_data
    }

    /// The sections of the file, in the order in which they were added.
    pub closed spec fn sections(&self) -> Seq<ConfigSection> {
        self.sections@
    }

    /// The handles of the sections, in the order of the sections.
    pub open spec fn section_ptrs(&self) -> Seq<usize> {
        self.sections().map_values(|section: ConfigSection| section.spec_ptr())
    }

    /// The file and its sections are registered, each section with this
    /// file, and no two sections have the same name.
    pub open spec fn wf(&self) -> bool {
        &&& self.ptr() != 0
        &&& forall|i: int|
            0 <= i < self.sections().len() ==> {
                &&& (#[trigger] self.sections()[i]).spec_ptr() != 0
                &&& self.sections()[i].spec_config_ptr() == self.ptr()
                &&& self.sections()[i].spec_weechat_ptr() == self.weechat_ptr()
            }
        &&& forall|i: int, j: int|
            0 <= i < j < self.sections().len() ==> (#[trigger] self.sections()[i]).spec_name() != (
            #[trigger] self.sections()[j]).spec_name()
    }

    /// The handle that the host assigned to the file.
    #[verifier::when_used_as_spec(spec_ptr)]
    pub fn ptr(&self) -> (ptr: usize)
        ensures
            ptr == self.spec_ptr(),
    {
        self.ptr
    }

    /// The plugin context.
    #[verifier::when_used_as_spec(spec_weechat_ptr)]
    pub fn weechat_ptr(&self) -> (ptr: usize)
        ensures
            ptr == self.spec_weechat_ptr(),
    {
        self.weechat_ptr
    }

    /// The context box whose address the host holds.
    #[verifier::when_used_as_spec(spec_config_data)]
    pub fn config_data(&self) -> (data: &ConfigPointers<T, F>)
        ensures
            data == self.spec_config_data(),
    {
        &*self.config_data
    }

    /// The context box, to fire its trampoline. Nothing else of the file
    /// changes with it.
    pub fn config_data_mut(&mut self) -> (data: &mut ConfigPointers<T, F>)
        ensures
            *data == *old(self).config_data(),
            *final(self).config_data() == *final(data),
            final(self).ptr() == old(self).ptr(),
            final(self).weechat_ptr() == old(self).weechat_ptr(),
            final(self).sections() == old(self).sections(),
    {
        &mut *self.config_data
    }

    /// The number of sections.
    pub fn len(&self) -> (n: usize)
        ensures
            n == self.sections().len(),
    {
        self.sections.len()
    }

    /// Where the first section named `name` stands, or the number of
    /// sections where none has the name.
    fn find(&self, name: &String) -> (i: usize)
        ensures
            i == position(self.sections(), name@),
            is_position(self.sections(), name@, i as int),
    {
        let mut i: usize = 0;
        while i < self.sections.len()
            invariant
                i <= self.sections@.len(),
                forall|j: int| 0 <= j < i ==> (#[trigger] self.sections@[j]).spec_name() != name@,
            decreases self.sections@.len() - i,
        {
            if self.sections[i].name == *name {
                proof {
                    lemma_position_unique(self.sections@, name@, i as int);
                }
                return i;
            }
            i += 1;
        }
        proof {
            lemma_position_unique(self.sections@, name@, i as int);
        }
        i
    }

    /// Where the first section with the handle `section` stands, or the
    /// number of sections where none has the handle.
    fn find_ptr(&self, section: usize) -> (i: usize)
        ensures
            i == section_position(self.sections(), section),
            is_section_position(self.sections(), section, i as int),
    {
        let mut i: usize = 0;
        while i < self.sections.len()
            invariant
                i <= self.sections@.len(),
                forall|j: int| 0 <= j < i ==> (#[trigger] self.sections@[j]).spec_ptr() != section,
            decreases self.sections@.len() - i,
        {
            if self.sections[i].ptr == section {
                proof {
                    lemma_section_position_unique(self.sections@, section, i as int);
                }
                return i;
            }
            i += 1;
        }
        proof {
            lemma_section_position_unique(self.sections@, section, i as int);
        }
        i
    }

    /// Notes that `option` was registered in the section with the handle
    /// `section`.
    pub(crate) fn record_option(&mut self, section: usize, option: usize)
        ensures
            final(self).ptr() == old(self).ptr(),
            final(self).weechat_ptr() == old(self).weechat_ptr(),
            final(self).config_data() == old(self).config_data(),
            option_recorded(old(self).sections(), final(self).sections(), section, option),
            old(self).wf() ==> final(self).wf(),
    {
        let at = self.find_ptr(section);
        if at < self.sections.len() {
            let mut held = self.sections.remove(at);
            held.options.push(option);
            self.sections.insert(at, held);
        }
    }

    /// Takes `option` out of the options of the section with the handle
    /// `section`, and says whether it was there.
    pub(crate) fn forget_option(&mut self, section: usize, option: usize) -> (held: bool)
        ensures
            final(self).ptr() == old(self).ptr(),
            final(self).weechat_ptr() == old(self).weechat_ptr(),
            final(self).config_data() == old(self).config_data(),
            held == holds_option(old(self).sections(), section, option),
            option_forgotten(old(self).sections(), final(self).sections(), section, option),
            old(self).wf() ==> final(self).wf(),
    {
        let at = self.find_ptr(section);
        if at >= self.sections.len() {
            return false;
        }
        let k = first_of(&self.sections[at].options, option);
        if k >= self.sections[at].options.len() {
            return false;
        }
        proof {
            lemma_without_is_remove(self.sections@[at as int].spec_options(), option, k as int);
        }
        let mut held = self.sections.remove(at);
        held.options.remove(k);
        self.sections.insert(at, held);
        true
    }

    /// The section named `name`, if the file has one.
    pub fn section(&self, name: &str) -> (section: Option<&ConfigSection>)
        ensures
            is_position(self.sections(), name@, position(self.sections(), name@)),
            section == if position(self.sections(), name@) < self.sections().len() {
                Some(&self.sections()[position(self.sections(), name@)])
            } else {
                None
            },
    {
        let name = name.to_owned();
        let i = self.find(&name);
        if i < self.sections.len() {
            Some(&self.sections[i])
        } else {
            None
        }
    }

    /// The call that loads the file from the disk.
    pub fn read(&self) -> (call: HostCall)
        ensures
            call == (HostCall::ConfigRead { config: self.ptr() }),
    {
        HostCall::ConfigRead { config: self.ptr }
    }

    /// The call that saves the file to the disk.
    pub fn write(&self) -> (call: HostCall)
        ensures
            call == (HostCall::ConfigWrite { config: self.ptr() }),
    {
        HostCall::ConfigWrite { config: self.ptr }
    }

    /// The call that creates a section in the file as `section_info` asks.
    /// The host is handed no section callback.
    pub fn new_section_call<S, G>(&self, section_info: &ConfigSectionInfo<S, G>) -> (call: HostCall)
        ensures
            registers_section(
                call,
                self.ptr(),
                section_info.name@,
                section_info.user_can_add_options,
                section_info.user_can_delete_option,
            ),
    {
        HostCall::ConfigNewSection {
            config: self.ptr,
            name: section_info.name.to_owned(),
            user_can_add_options: encode_flag(section_info.user_can_add_options),
            user_can_delete_options: encode_flag(section_info.user_can_delete_option),
        }
    }

    /// Takes in the section that the host created for `section_info`, under
    /// the handle `section_ptr` that it answered.
    ///
    /// A null handle means that the host refused: the file stays as it is
    /// and the result is `None`. Otherwise the section is kept under its
    /// name. Where the file held a section of that name, the new one takes
    /// its place and the result holds the calls that free the old one;
    /// where it held none, the new one comes last and there is nothing to
    /// free.
    pub fn new_section<S, G>(
        &mut self,
        section_info: ConfigSectionInfo<S, G>,
        section_ptr: usize,
    ) -> (replaced: Option<Vec<HostCall>>)
        ensures
            final(self).ptr() == old(self).ptr(),
            final(self).weechat_ptr() == old(self).weechat_ptr(),
            final(self).config_data() == old(self).config_data(),
            section_ptr == 0 ==> replaced is None && final(self).sections() == old(self).sections(),
            section_ptr != 0 ==> ({
                let at = position(old(self).sections(), section_info.name@);
                let before = old(self).sections();
                let after = final(self).sections();
                &&& is_position(before, section_info.name@, at)
                &&& replaced matches Some(calls)
                &&& calls@ == if at < before.len() {
                    sections_release_calls(seq![before[at].spec_ptr()])
                } else {
                    Seq::<HostCall>::empty()
                }
                &&& after.len() == if at < before.len() {
                    before.len()
                } else {
                    before.len() + 1
                }
                &&& forall|i: int| 0 <= i < before.len() && i != at ==> after[i] == before[i]
                &&& after[at].spec_name() == section_info.name@
                &&& after[at].spec_ptr() == section_ptr
                &&& after[at].spec_config_ptr() == old(self).ptr()
                &&& after[at].spec_weechat_ptr() == old(self).weechat_ptr()
                &&& after[at].spec_options() == Seq::<usize>::empty()
            }),
            old(self).wf() ==> final(self).wf(),
    {
        if section_ptr == 0 {
            return None;
        }
        let name = section_info.name.to_owned();
        let at = self.find(&name);
        let section = ConfigSection {
            name,
            ptr: section_ptr,
            config_ptr: self.ptr,
            weechat_ptr: self.weechat_ptr,
            options: Vec::new(),
        };
        let replaces: bool = at < self.sections.len();
        self.sections.push(section);
        if replaces {
            let old_section = self.sections.swap_remove(at);
            Some(old_section.free())
        } else {
            Some(Vec::new())
        }
    }

    /// Frees the file: the calls that free each section, in the order of
    /// the sections, and then the file itself. The calls are to be made
    /// first, in this order; the context box that comes with them is to be
    /// dropped only afterwards.
    pub fn free(self) -> (end: (Vec<HostCall>, Box<ConfigPointers<T, F>>))
        ensures
            end.0@ == config_release_calls(self.ptr(), self.section_ptrs()),
            *end.1 == *self.config_data(),
    {
        let mut calls: Vec<HostCall> = Vec::new();
        let mut i: usize = 0;
        while i < self.sections.len()
            invariant
                i <= self.sections@.len(),
                calls@ == sections_release_calls(self.section_ptrs().take(i as int)),
            decreases self.sections@.len() - i,
        {
            let section: usize = self.sections[i].ptr;
            calls.push(HostCall::ConfigSectionFreeOptions { section });
            calls.push(HostCall::ConfigSectionFree { section });
            i += 1;
            assert(calls@ =~= sections_release_calls(self.section_ptrs().take(i as int)));
        }
        assert(self.section_ptrs().take(i as int) =~= self.section_ptrs());
        calls.push(HostCall::ConfigFree { config: self.ptr });
        (calls, self.config_data)
    }
}

} // verus!
