//! The boundary with the host: handles, the calls this layer makes, and the
//! answers it takes back.

use vstd::prelude::*;

verus! {

/// The status that the trampolines of hooks and of reloads hand back to the
/// host: "handled".
pub const WEECHAT_RC_OK: i32 = 0;

/// What the check trampoline answers the host for a value that may be
/// committed.
pub const OPTION_CHECK_ACCEPT: i32 = 1;

/// What the check trampoline answers the host for a value that must not be
/// committed.
pub const OPTION_CHECK_REJECT: i32 = 0;

/// Type tag of a table variable that has none of the types below.
pub const WEECHAT_HDATA_OTHER: i32 = 0;

/// Type tag of a single character.
pub const WEECHAT_HDATA_CHAR: i32 = 1;

/// Type tag of a 32-bit integer.
pub const WEECHAT_HDATA_INTEGER: i32 = 2;

/// Type tag of a 64-bit integer.
pub const WEECHAT_HDATA_LONG: i32 = 3;

/// Type tag of a text.
pub const WEECHAT_HDATA_STRING: i32 = 4;

/// Type tag of a pointer to another object.
pub const WEECHAT_HDATA_POINTER: i32 = 5;

/// Type tag of a timestamp.
pub const WEECHAT_HDATA_TIME: i32 = 6;

/// Type tag of a hash table.
pub const WEECHAT_HDATA_HASHTABLE: i32 = 7;

/// Type tag of a text that the host shares between objects.
pub const WEECHAT_HDATA_SHARED_STRING: i32 = 8;

/// The host's encoding of a flag: 1 when set, 0 when not.
pub open spec fn flag(value: bool) -> i32 {
    if value {
        1
    } else {
        0
    }
}

/// Encodes a flag as the host takes it: 1 when set, 0 when not.
pub fn encode_flag(value: bool) -> (encoded: i32)
    ensures
        encoded == flag(value),
{
    if value {
        1
    } else {
        0
    }
}

/// The host's status for the verdict of a check: accept or reject.
pub open spec fn check_status(accepted: bool) -> i32 {
    if accepted {
        OPTION_CHECK_ACCEPT
    } else {
        OPTION_CHECK_REJECT
    }
}

/// The plugin context that the host supplied at initialization.
///
/// It is a borrowed address of host memory: never owned, never freed here.
/// Every call into the host names it.
#[derive(Clone, Copy, Debug, PartialEq, Eq)]
pub struct Weechat {
    pub ptr: usize,
}

impl Weechat {
    /// Wraps the address that the host supplied.
    pub fn from_ptr(ptr: usize) -> (weechat: Weechat)
        ensures
            weechat.ptr == ptr,
    {
        Weechat { ptr }
    }
}

/// A non-owning reference to one of the host's buffers.
#[derive(Clone, Copy, Debug, PartialEq, Eq)]
pub struct Buffer {
    pub weechat: usize,
    pub ptr: usize,
}

impl Buffer {
    /// Wraps the address of a buffer that the host handed out.
    pub fn from_ptr(weechat_ptr: usize, buffer_ptr: usize) -> (buffer: Buffer)
        ensures
            buffer.weechat == weechat_ptr,
            buffer.ptr == buffer_ptr,
    {
        Buffer { weechat: weechat_ptr, ptr: buffer_ptr }
    }
}

/// The arguments of a command, as the host passed them to its callback.
///
/// The host passes a count and a vector of texts. This view shows the first
/// `count` of them, or all of them where the count is larger than the vector,
/// and none where it is negative.
pub struct ArgsWeechat {
    argc: usize,
    argv: Vec<String>,
}

impl ArgsWeechat {
    #[verifier::type_invariant]
    spec fn well_formed(self) -> bool {
        self.argc <= self.argv@.len()
    }

    /// How many of `len` texts a host count of `argc` makes visible.
    pub open spec fn visible(argc: i32, len: nat) -> nat {
        if argc < 0 {
            0
        } else if argc as nat > len {
            len
        } else {
            argc as nat
        }
    }

    /// The arguments, in order.
    pub closed spec fn view(self) -> Seq<String> {
        self.argv@.take(self.argc as int)
    }

    /// Builds the view from the count and the texts of a host callback.
    pub fn new(argc: i32, argv: Vec<String>) -> (args: ArgsWeechat)
        ensures
            args@ == argv@.take(Self::visible(argc, argv@.len()) as int),
    {
        let count: usize = if argc < 0 {
            0
        } else if argc as usize > argv.len() {
            argv.len()
        } else {
            argc as usize
        };
        ArgsWeechat { argc: count, argv }
    }

    /// The number of arguments.
    pub fn len(&self) -> (n: usize)
        ensures
            n == self@.len(),
    {
        proof {
            use_type_invariant(self);
        }
        self.argc
    }

    /// The argument at `index`, if there is one.
    pub fn get(&self, index: usize) -> (arg: Option<&String>)
        ensures
            arg == if index < self@.len() { Some(&self@[index as int]) } else { None },
    {
        proof {
            use_type_invariant(self);
        }
        if index < self.argc {
            Some(&self.argv[index])
        } else {
            None
        }
    }
}

/// A call into the host. This layer decides which call is made and with what;
/// the embedding code performs it.
///
/// A registration goes to the host together with the address of its context
/// box, and with a null "free on unregister" pointer: this layer reclaims its
/// contexts itself. A callback slot that is `false` is handed over as a null
/// function pointer.
#[derive(Clone, Debug, PartialEq, Eq)]
pub enum HostCall {
    /// Registers a command; the command trampoline is always installed.
    HookCommand {
        plugin: usize,
        command: String,
        description: String,
        args: String,
        args_description: String,
        completion: String,
    },
    /// Watches a file descriptor; the descriptor trampoline is always
    /// installed.
    HookFd { plugin: usize, fd: i32, flag_read: i32, flag_write: i32, flag_exception: i32 },
    /// Removes a hook.
    Unhook { hook: usize },
    /// Creates a configuration file.
    ConfigNew { plugin: usize, name: String, reload_callback: bool },
    /// Creates a section in a configuration file; no section callback is
    /// installed.
    ConfigNewSection {
        config: usize,
        name: String,
        user_can_add_options: i32,
        user_can_delete_options: i32,
    },
    /// Creates an option in a section.
    ConfigNewOption {
        config: usize,
        section: usize,
        name: String,
        option_type: String,
        description: String,
        string_values: String,
        min: i32,
        max: i32,
        default_value: String,
        value: String,
        null_allowed: i32,
        check_callback: bool,
        change_callback: bool,
        delete_callback: bool,
    },
    /// Frees one option.
    ConfigOptionFree { option: usize },
    /// Frees every option that is left in a section.
    ConfigSectionFreeOptions { section: usize },
    /// Frees a section.
    ConfigSectionFree { section: usize },
    /// Frees a configuration file.
    ConfigFree { config: usize },
    /// Loads a configuration file from the disk.
    ConfigRead { config: usize },
    /// Saves a configuration file to the disk.
    ConfigWrite { config: usize },
    /// Looks up a table by name.
    HdataGet { plugin: usize, name: String },
    /// Asks for the declared type of a table variable.
    HdataGetVarType { hdata: usize, name: String },
    /// Reads a variable as a character.
    HdataChar { hdata: usize, object: usize, name: String },
    /// Reads a variable as a 32-bit integer.
    HdataInteger { hdata: usize, object: usize, name: String },
    /// Reads a variable as a 64-bit integer.
    HdataLong { hdata: usize, object: usize, name: String },
    /// Reads a variable as a text.
    HdataString { hdata: usize, object: usize, name: String },
    /// Reads a variable as a pointer.
    HdataPointer { hdata: usize, object: usize, name: String },
    /// Reads a variable as a timestamp.
    HdataTime { hdata: usize, object: usize, name: String },
}

impl HostCall {
    /// The handle that the call releases, where it releases exactly one
    /// registered resource.
    pub open spec fn released(self) -> Option<usize> {
        match self {
            HostCall::Unhook { hook } => Some(hook),
            HostCall::ConfigOptionFree { option } => Some(option),
            HostCall::ConfigSectionFree { section } => Some(section),
            HostCall::ConfigFree { config } => Some(config),
            _ => None,
        }
    }
}

/// The handles that a sequence of calls releases, in the order of the calls.
pub open spec fn released_handles(calls: Seq<HostCall>) -> Seq<usize>
    decreases calls.len(),
{
    if calls.len() == 0 {
        Seq::empty()
    } else {
        let before = released_handles(calls.drop_last());
        match calls.last().released() {
            Some(handle) => before.push(handle),
            None => before,
        }
    }
}

/// Adding a call to a sequence adds the handle that it releases, if it
/// releases one, and nothing otherwise.
pub proof fn lemma_released_handles_push(calls: Seq<HostCall>, call: HostCall)
    ensures
        released_handles(calls.push(call)) == match call.released() {
            Some(handle) => released_handles(calls).push(handle),
            None => released_handles(calls),
        },
{
    assert(calls.push(call).drop_last() =~= calls);
}

/// What the host answered to a call.
#[derive(Clone, Debug, PartialEq, Eq)]
pub enum HostReply {
    /// A pointer; 0 is the null pointer.
    Pointer(usize),
    /// A 32-bit integer, also used for type tags.
    Integer(i32),
    /// A 64-bit integer.
    Long(i64),
    /// A character as the host stores it.
    Char(i8),
    /// A text, or `None` for a null pointer.
    Text(Option<String>),
    /// Seconds since the Unix epoch.
    Time(i64),
}

/// The next move of an operation that needs answers from the host.
#[derive(Debug, PartialEq)]
pub enum Step<T> {
    /// Make this call and come back with its answer added.
    Call(HostCall),
    /// The operation is over, with this result.
    Done(Option<T>),
}

/// A resource that is not registered yet: the call that registers it, and the
/// context box whose address goes with the call.
///
/// The box is allocated here and never moves, so its address may be handed to
/// the host before the registration is completed.
pub struct Registration<C> {
    pub call: HostCall,
    pub weechat_ptr: usize,
    pub context: Box<C>,
}

} // verus!
