//! Hooks: commands and watched file descriptors.

use crate::host::{
    flag, released_handles, ArgsWeechat, Buffer, HostCall, Registration, Weechat, WEECHAT_RC_OK,
};
use vstd::prelude::*;

verus! {

/// Which events of a file descriptor a hook catches.
#[derive(Clone, Copy, Debug, PartialEq, Eq)]
pub enum FdHookMode {
    /// Catch read events.
    Read,
    /// Catch write events.
    Write,
    /// Catch read and write events.
    ReadWrite,
}

impl FdHookMode {
    /// Whether the mode catches read events.
    pub open spec fn reads(self) -> bool {
        self is Read || self is ReadWrite
    }

    /// Whether the mode catches write events.
    pub open spec fn writes(self) -> bool {
        self is Write || self is ReadWrite
    }

    /// The two flags that the host takes for the mode: read first, then
    /// write, each 1 when set and 0 when not.
    pub fn as_tuple(&self) -> (flags: (i32, i32))
        ensures
            flags.0 == flag(self.reads()),
            flags.1 == flag(self.writes()),
    {
        let read: i32 = match self {
            FdHookMode::Read => 1,
            FdHookMode::ReadWrite => 1,
            FdHookMode::Write => 0,
        };

        let write: i32 = match self {
            FdHookMode::Read => 0,
            FdHookMode::ReadWrite => 1,
            FdHookMode::Write => 1,
        };
        (read, write)
    }
}

/// A hook that is registered with the host.
///
/// It cannot be copied, and removing it consumes it: the host is told to
/// remove a hook at most once.
pub struct Hook {
    ptr: usize,
    weechat_ptr: usize,
}

impl Hook {
    /// The handle that the host assigned to the hook.
    pub closed spec fn spec_ptr(&self) -> usize {
        self.ptr
    }

    /// The plugin context.
    pub closed spec fn spec_weechat_ptr(&self) -> usize {
        self.weechat_ptr
    }

    /// The handle that the host assigned to the hook.
    #[verifier::when_used_as_spec(spec_ptr)]
    pub fn ptr(&self) -> (ptr: usize)
        ensures
            ptr == self.spec_ptr(),
    {
        self.ptr
    }

    /// The plugin context.
    #[verifier::when_used_as_spec(spec_weechat_ptr)]
    pub fn weechat_ptr(&self) -> (ptr: usize)
        ensures
            ptr == self.spec_weechat_ptr(),
    {
        self.weechat_ptr
    }

    /// The hook that a registration gives when the host answered it with
    /// `reply`: none for the null handle, and the hook with that handle
    /// otherwise.
    pub closed spec fn registered(reply: usize, weechat_ptr: usize) -> Option<Hook> {
        if reply != 0 {
            Some(Hook { ptr: reply, weechat_ptr })
        } else {
            None
        }
    }

    /// The call that removes the hook from the host.
    pub open spec fn release(&self) -> HostCall {
        HostCall::Unhook { hook: self.spec_ptr() }
    }

    /// Ends the hook: the call that removes it from the host.
    pub fn unhook(self) -> (call: HostCall)
        ensures
            call == self.release(),
    {
        HostCall::Unhook { hook: self.ptr }
    }
}

/// The calls that end what a hook registration gave: the removal of the
/// hook where it gave one, and no call where it gave none.
pub open spec fn hook_release_calls(hook: Option<Hook>) -> Seq<HostCall> {
    match hook {
        Some(h) => seq![h.release()],
        None => Seq::empty(),
    }
}

/// No leak and no double free: what `complete` gives for the host's answer
/// `reply`, removed by `unhook`, releases that handle once where the host
/// accepted the registration, and nothing where it refused. So the host sees
/// as many removals as registrations that succeeded.
pub proof fn lemma_hook_released_once(reply: usize, weechat_ptr: usize)
    ensures
        reply == 0 <==> Hook::registered(reply, weechat_ptr) is None,
        Hook::registered(reply, weechat_ptr) matches Some(h) ==> h.spec_ptr() == reply
            && h.spec_weechat_ptr() == weechat_ptr,
        released_handles(hook_release_calls(Hook::registered(reply, weechat_ptr))) == if reply
            != 0 {
            seq![reply]
        } else {
            Seq::<usize>::empty()
        },
{
    let calls = hook_release_calls(Hook::registered(reply, weechat_ptr));
    if reply != 0 {
        assert(calls.drop_last() =~= Seq::<HostCall>::empty());
        assert(released_handles(calls.drop_last()) =~= Seq::<usize>::empty());
        assert(released_handles(calls) =~= seq![reply]);
    }
}

/// Description of a command that is to be hooked. The texts have the formats
/// that the host documents for commands.
pub struct CommandDescription<'a> {
    /// Name of the command.
    pub name: &'a str,
    /// Description of the command, shown in its help.
    pub description: &'a str,
    /// Arguments of the command, shown in its help.
    pub args: &'a str,
    /// Description of the arguments, shown in the command's help.
    pub args_description: &'a str,
    /// Completion template of the command.
    pub completion: &'a str,
}

/// A command description as the host will see it: every text by its
/// characters.
pub struct CommandDescriptionView {
    pub name: Seq<char>,
    pub description: Seq<char>,
    pub args: Seq<char>,
    pub args_description: Seq<char>,
    pub completion: Seq<char>,
}

impl<'a> View for CommandDescription<'a> {
    type V = CommandDescriptionView;

    open spec fn view(&self) -> CommandDescriptionView {
        CommandDescriptionView {
            name: self.name@,
            description: self.description@,
            args: self.args@,
            args_description: self.args_description@,
            completion: self.completion@,
        }
    }
}

impl<'a> Default for CommandDescription<'a> {
    /// The description with every text empty.
    fn default() -> (description: Self)
        ensures
            description@ == (CommandDescriptionView {
                name: Seq::empty(),
                description: Seq::empty(),
                args: Seq::empty(),
                args_description: Seq::empty(),
                completion: Seq::empty(),
            }),
    {
        proof {
            reveal_strlit("");
            assert(""@ =~= Seq::<char>::empty());
        }
        CommandDescription { name: "", description: "", args: "", args_description: "", completion: "" }
    }
}

/// The context box of a command hook: the callback, its state, and the
/// plugin context from which the callback's buffer is built.
pub struct CommandHookData<T, F> {
    pub callback: F,
    pub callback_data: T,
    pub weechat_ptr: usize,
}

impl<T, F: Fn(&T, Buffer, ArgsWeechat)> CommandHookData<T, F> {
    /// The callback may be called on every input.
    pub open spec fn callable(self) -> bool {
        forall|data: &T, buffer: Buffer, args: ArgsWeechat|
            call_requires(self.callback, (data, buffer, args))
    }

    /// What the command trampoline does when the host runs the command in
    /// the buffer behind `buffer` with `argc` arguments out of `argv`: it
    /// calls the callback with the state, the buffer and the arguments, and
    /// tells the host "handled".
    pub fn fire(&self, buffer: usize, argc: i32, argv: Vec<String>) -> (rc: i32)
        requires
            self.callable(),
        ensures
            rc == WEECHAT_RC_OK,
            exists|args: ArgsWeechat|
                args@ == argv@.take(ArgsWeechat::visible(argc, argv@.len()) as int)
                    && #[trigger] call_ensures(
                    self.callback,
                    (&self.callback_data, (Buffer { weechat: self.weechat_ptr, ptr: buffer }), args),
                    (),
                ),
    {
        let target = Buffer::from_ptr(self.weechat_ptr, buffer);
        let args = ArgsWeechat::new(argc, argv);
        let ghost passed = args;
        (self.callback)(&self.callback_data, target, args);
        assert(call_ensures(
            self.callback,
            (&self.callback_data, (Buffer { weechat: self.weechat_ptr, ptr: buffer }), passed),
            (),
        ));
        WEECHAT_RC_OK
    }
}

/// A command that is registered with the host. The host runs the callback
/// until the hook is removed.
pub struct CommandHook<T, F> {
    /// The hook itself.
    pub hook: Hook,
    /// The context box whose address the host holds.
    pub hook_data: Box<CommandHookData<T, F>>,
}

impl<T, F> CommandHook<T, F> {
    /// Removes the command. The call is to be made first; the context box
    /// that comes with it is to be dropped only afterwards, when the host can
    /// no longer fire the trampoline.
    pub fn unhook(self) -> (end: (HostCall, Box<CommandHookData<T, F>>))
        ensures
            end.0 == self.hook.release(),
            end.1 == self.hook_data,
    {
        (self.hook.unhook(), self.hook_data)
    }
}

impl<T, F> Registration<CommandHookData<T, F>> {
    /// Completes the registration with the handle that the host answered.
    ///
    /// A null handle means that the host refused: the context box is dropped
    /// at once and there is no hook. Any other handle gives the hook, which
    /// owns the box from here on.
    pub fn complete(self, hook_ptr: usize) -> (hook: Option<CommandHook<T, F>>)
        ensures
            hook_ptr == 0 ==> hook is None,
            hook_ptr != 0 ==> (hook matches Some(h) && h.hook.ptr() == hook_ptr
                && h.hook.weechat_ptr() == self.weechat_ptr && h.hook_data == self.context),
            Hook::registered(hook_ptr, self.weechat_ptr) == match hook {
                Some(h) => Some(h.hook),
                None => None,
            },
    {
        if hook_ptr == 0 {
            None
        } else {
            Some(
                CommandHook {
                    hook: Hook { ptr: hook_ptr, weechat_ptr: self.weechat_ptr },
                    hook_data: self.context,
                },
            )
        }
    }
}

/// The context box of a descriptor hook: the callback, its state, and the
/// watched object.
pub struct FdHookData<T, O, F> {
    pub callback: F,
    pub callback_data: T,
    pub fd_object: O,
}

impl<T, O, F: Fn(&T, &mut O)> FdHookData<T, O, F> {
    /// The callback may be called on every input.
    pub open spec fn callable(self) -> bool {
        forall|data: &T, object: &mut O| call_requires(self.callback, (data, object))
    }

    /// What the descriptor trampoline does when the host reports an event:
    /// it calls the callback with the state and the watched object, and
    /// tells the host "handled". The descriptor number that the host passes
    /// plays no part: the box already holds the object.
    pub fn fire(&mut self, fd: i32) -> (rc: i32)
        requires
            old(self).callable(),
        ensures
            rc == WEECHAT_RC_OK,
            final(self).callback == old(self).callback,
            final(self).callback_data == old(self).callback_data,
            exists|object: &mut O|
                *object == old(self).fd_object && *final(object) == final(self).fd_object
                    && #[trigger] call_ensures(
                    old(self).callback,
                    (&old(self).callback_data, object),
                    (),
                ),
    {
        (self.callback)(&self.callback_data, &mut self.fd_object);
        WEECHAT_RC_OK
    }
}

/// A watched file descriptor that is registered with the host. The host
/// runs the callback until the hook is removed.
pub struct FdHook<T, O, F> {
    /// The hook itself.
    pub hook: Hook,
    /// The context box whose address the host holds.
    pub hook_data: Box<FdHookData<T, O, F>>,
}

impl<T, O, F> FdHook<T, O, F> {
    /// Stops watching. The call is to be made first; the context box that
    /// comes with it, and the watched object in it, are to be dropped only
    /// afterwards.
    pub fn unhook(self) -> (end: (HostCall, Box<FdHookData<T, O, F>>))
        ensures
            end.0 == self.hook.release(),
            end.1 == self.hook_data,
    {
        (self.hook.unhook(), self.hook_data)
    }
}

impl<T, O, F> Registration<FdHookData<T, O, F>> {
    /// Completes the registration with the handle that the host answered.
    ///
    /// A null handle means that the host refused: the context box is dropped
    /// at once and there is no hook. Any other handle gives the hook, which
    /// owns the box from here on.
    pub fn complete(self, hook_ptr: usize) -> (hook: Option<FdHook<T, O, F>>)
        ensures
            hook_ptr == 0 ==> hook is None,
            hook_ptr != 0 ==> (hook matches Some(h) && h.hook.ptr() == hook_ptr
                && h.hook.weechat_ptr() == self.weechat_ptr && h.hook_data == self.context),
            Hook::registered(hook_ptr, self.weechat_ptr) == match hook {
                Some(h) => Some(h.hook),
                None => None,
            },
    {
        if hook_ptr == 0 {
            None
        } else {
            Some(
                FdHook {
                    hook: Hook { ptr: hook_ptr, weechat_ptr: self.weechat_ptr },
                    hook_data: self.context,
                },
            )
        }
    }
}

/// What the host is told about a new command.
pub open spec fn registers_command(
    call: HostCall,
    plugin: usize,
    command_info: CommandDescriptionView,
) -> bool {
    &&& call matches HostCall::HookCommand {
        plugin: p,
        command,
        description,
        args,
        args_description,
        completion,
    }
    &&& p == plugin
    &&& command@ == command_info.name
    &&& description@ == command_info.description
    &&& args@ == command_info.args
    &&& args_description@ == command_info.args_description
    &&& completion@ == command_info.completion
}

impl Weechat {
    /// Prepares a new command of the host.
    ///
    /// The call tells the host the description, each text as given. The
    /// context box holds the callback and its state, `callback_data` or a
    /// default state where none is given. The command exists once the
    /// registration is completed, and until its hook is removed.
    pub fn hook_command<T, F>(
        &self,
        command_info: CommandDescription,
        callback: F,
        callback_data: Option<T>,
    ) -> (registration: Registration<CommandHookData<T, F>>) where
        T: Default,
        F: Fn(&T, Buffer, ArgsWeechat),

        requires
            forall|data: &T, buffer: Buffer, args: ArgsWeechat|
                call_requires(callback, (data, buffer, args)),
        ensures
            registers_command(registration.call, self.ptr, command_info@),
            registration.weechat_ptr == self.ptr,
            registration.context.callback == callback,
            registration.context.weechat_ptr == self.ptr,
            callback_data matches Some(d) ==> registration.context.callback_data == d,
            callback_data is None ==> call_ensures(
                T::default,
                (),
                registration.context.callback_data,
            ),
            registration.context.callable(),
    {
        let call = HostCall::HookCommand {
            plugin: self.ptr,
            command: command_info.name.to_owned(),
            description: command_info.description.to_owned(),
            args: command_info.args.to_owned(),
            args_description: command_info.args_description.to_owned(),
            completion: command_info.completion.to_owned(),
        };
        let data = Box::new(
            CommandHookData {
                callback,
                callback_data: callback_data.unwrap_or_default(),
                weechat_ptr: self.ptr,
            },
        );
        Registration { call, weechat_ptr: self.ptr, context: data }
    }

    /// Prepares a watch on the file descriptor `fd` of `fd_object`.
    ///
    /// The call asks the host to watch for the events of `mode`, never for
    /// exceptions. The context box holds the callback, its state
    /// (`callback_data` or a default state where none is given) and the
    /// object itself, which the callback gets each time an event arrives.
    pub fn hook_fd<T, O, F>(
        &self,
        fd_object: O,
        fd: i32,
        mode: FdHookMode,
        callback: F,
        callback_data: Option<T>,
    ) -> (registration: Registration<FdHookData<T, O, F>>) where T: Default, F: Fn(&T, &mut O)
        requires
            forall|data: &T, object: &mut O| call_requires(callback, (data, object)),
        ensures
            registration.call == (HostCall::HookFd {
                plugin: self.ptr,
                fd,
                flag_read: flag(mode.reads()),
                flag_write: flag(mode.writes()),
                flag_exception: 0,
            }),
            registration.weechat_ptr == self.ptr,
            registration.context.callback == callback,
            registration.context.fd_object == fd_object,
            callback_data matches Some(d) ==> registration.context.callback_data == d,
            callback_data is None ==> call_ensures(
                T::default,
                (),
                registration.context.callback_data,
            ),
            registration.context.callable(),
    {
        let data = Box::new(
            FdHookData { callback, callback_data: callback_data.unwrap_or_default(), fd_object },
        );
        let (read, write) = mode.as_tuple();
        let call = HostCall::HookFd {
            plugin: self.ptr,
            fd,
            flag_read: read,
            flag_write: write,
            flag_exception: 0,
        };
        Registration { call, weechat_ptr: self.ptr, context: data }
    }
}

} // verus!
