//! Typed reads from the host's tables of variables.
//!
//! A table names its variables and declares a type for each. A read asks for
//! the declared type first and goes on only where it is the type that was
//! asked for: a value is never read as anything but what the table says it
//! is.

use crate::host::{
    Buffer, HostCall, HostReply, Step, WEECHAT_HDATA_CHAR, WEECHAT_HDATA_INTEGER,
    WEECHAT_HDATA_LONG, WEECHAT_HDATA_POINTER, WEECHAT_HDATA_STRING, WEECHAT_HDATA_TIME,
};
use vstd::prelude::*;

verus! {

/// A date and time without a time zone; this layer holds UTC in it.
#[verifier::external_type_specification]
#[verifier::external_body]
pub struct ExNaiveDateTime(chrono::NaiveDateTime);

/// The UTC date and time that lies `secs` seconds after the Unix epoch, or
/// `None` where the calendar cannot hold it.
pub uninterp spec fn utc_from_timestamp(secs: i64) -> Option<chrono::NaiveDateTime>;

/// Calls `chrono::DateTime::from_timestamp` with `secs` and no nanoseconds,
/// and takes the date and time out of the answer with `naive_utc`.
///
/// Nothing is proved of the result. The contract claims only that it is a
/// function of `secs`: chrono computes it from the number alone, and answers
/// `None` where the number is out of the calendar's range.
#[verifier::external_body]
fn datetime_from_timestamp(secs: i64) -> (time: Option<chrono::NaiveDateTime>)
    ensures
        time == utc_from_timestamp(secs),
{
    chrono::DateTime::from_timestamp(secs, 0).map(|time| time.naive_utc())
}

/// A table of variables, tied to the object whose variables it reads.
#[derive(Clone, Copy, Debug, PartialEq, Eq)]
pub struct HData {
    /// The plugin context.
    pub weechat_ptr: usize,
    /// The object whose variables are read.
    pub object: usize,
    /// The table.
    pub ptr: usize,
}

/// A pointer that was read from a table. It can be asked for a table of
/// its own, so that nested objects can be walked.
#[derive(Clone, Copy, Debug, PartialEq, Eq)]
pub struct HDataPointer {
    pub ptr: usize,
    pub weechat: usize,
}

/// The call that looks up the table named `name`.
pub open spec fn asks_hdata(call: HostCall, plugin: usize, name: Seq<char>) -> bool {
    &&& call matches HostCall::HdataGet { plugin: p, name: n }
    &&& p == plugin
    &&& n@ == name
}

/// The call that asks for the declared type of the variable `name`.
pub open spec fn asks_var_type(call: HostCall, hdata: HData, name: Seq<char>) -> bool {
    &&& call matches HostCall::HdataGetVarType { hdata: h, name: n }
    &&& h == hdata.ptr
    &&& n@ == name
}

/// The call that reads the variable `name` with the getter for the type
/// tagged `tag`.
pub open spec fn asks_value(call: HostCall, tag: i32, hdata: HData, name: Seq<char>) -> bool {
    if tag == WEECHAT_HDATA_CHAR {
        call matches HostCall::HdataChar { hdata: h, object: o, name: n } && h == hdata.ptr && o
            == hdata.object && n@ == name
    } else if tag == WEECHAT_HDATA_INTEGER {
        call matches HostCall::HdataInteger { hdata: h, object: o, name: n } && h == hdata.ptr && o
            == hdata.object && n@ == name
    } else if tag == WEECHAT_HDATA_LONG {
        call matches HostCall::HdataLong { hdata: h, object: o, name: n } && h == hdata.ptr && o
            == hdata.object && n@ == name
    } else if tag == WEECHAT_HDATA_STRING {
        call matches HostCall::HdataString { hdata: h, object: o, name: n } && h == hdata.ptr && o
            == hdata.object && n@ == name
    } else if tag == WEECHAT_HDATA_POINTER {
        call matches HostCall::HdataPointer { hdata: h, object: o, name: n } && h == hdata.ptr && o
            == hdata.object && n@ == name
    } else if tag == WEECHAT_HDATA_TIME {
        call matches HostCall::HdataTime { hdata: h, object: o, name: n } && h == hdata.ptr && o
            == hdata.object && n@ == name
    } else {
        false
    }
}

/// How far a read has come, given the host's answers so far.
#[derive(Clone, Copy, Debug, PartialEq, Eq)]
pub enum ReadStage {
    /// Nothing was asked yet: the declared type comes first.
    AskType,
    /// The table declares another type than the one asked for, or the host
    /// gave no type at all. The read is over and the value is absent.
    Mismatch,
    /// The declared type is the one asked for: the value may be read.
    AskValue,
    /// The value was read; it is the second answer.
    HaveValue,
}

/// How far a read of a variable whose type is tagged `tag` has come after
/// the answers `replies`.
pub open spec fn read_stage(replies: Seq<HostReply>, tag: i32) -> ReadStage {
    if replies.len() == 0 {
        ReadStage::AskType
    } else if replies[0] != HostReply::Integer(tag) {
        ReadStage::Mismatch
    } else if replies.len() == 1 {
        ReadStage::AskValue
    } else {
        ReadStage::HaveValue
    }
}

/// Whether `step` is the next move of a read after the answers `replies`,
/// for a type that is tagged `tag` and whose getter's answer stands for
/// `wrapped`.
pub open spec fn read_step<T>(
    step: Step<T>,
    hdata: HData,
    name: Seq<char>,
    replies: Seq<HostReply>,
    tag: i32,
    wrapped: Option<T>,
) -> bool {
    match read_stage(replies, tag) {
        ReadStage::AskType => step matches Step::Call(call) && asks_var_type(call, hdata, name),
        ReadStage::Mismatch => step == Step::<T>::Done(None),
        ReadStage::AskValue => step matches Step::Call(call) && asks_value(call, tag, hdata, name),
        ReadStage::HaveValue => step == Step::Done(wrapped),
    }
}

impl HData {
    /// The call that asks for the declared type of the variable `name`.
    pub fn var_type_call(&self, name: &str) -> (call: HostCall)
        ensures
            asks_var_type(call, *self, name@),
    {
        HostCall::HdataGetVarType { hdata: self.ptr, name: name.to_owned() }
    }

    /// How far a read of a variable whose type is tagged `tag` has come
    /// after the answers `replies`.
    pub fn stage(replies: &Vec<HostReply>, tag: i32) -> (stage: ReadStage)
        ensures
            stage == read_stage(replies@, tag),
    {
        if replies.len() == 0 {
            return ReadStage::AskType;
        }
        let authorized: bool = match &replies[0] {
            HostReply::Integer(declared) => *declared == tag,
            _ => false,
        };
        if !authorized {
            ReadStage::Mismatch
        } else if replies.len() == 1 {
            ReadStage::AskValue
        } else {
            ReadStage::HaveValue
        }
    }

    /// Reads the variable `name` as a `T`, one move at a time.
    ///
    /// `replies` holds the host's answers to the calls that this read has
    /// asked for so far, oldest first. The first move asks for the type that
    /// the table declares for the variable. Where that is not the type of
    /// `T`, the read is over and the value is absent, whatever else the host
    /// may have answered. Where it is, the next move reads the value with
    /// the getter for `T`, and the last one wraps what the getter answered.
    pub fn get_var<T: HDataType>(&self, name: &str, replies: &Vec<HostReply>) -> (step: Step<T>)
        ensures
            read_step(step, *self, name@, replies@, T::tag(), T::wrap(*self, replies@[1])),
            replies@.len() > 0 && replies@[0] != HostReply::Integer(T::tag()) ==> step
                == Step::<T>::Done(None),
    {
        T::hdata_value(self, name, replies)
    }
}

/// A type of object that has tables of variables.
pub trait HasHData {
    /// The object.
    spec fn object_ptr(&self) -> usize;

    /// The plugin context through which the object is reached.
    spec fn plugin_ptr(&self) -> usize;

    /// Looks up the table named `name` for this object, one move at a
    /// time.
    ///
    /// `replies` holds the host's answers so far. The first move asks the
    /// host for the table. With its answer the lookup is over: a pointer
    /// that is not null gives the table, tied to this object, and anything
    /// else gives nothing.
    fn get_hdata(&self, name: &str, replies: &Vec<HostReply>) -> (step: Step<HData>)
        ensures
            replies@.len() == 0 ==> (step matches Step::Call(call) && asks_hdata(
                call,
                self.plugin_ptr(),
                name@,
            )),
            replies@.len() > 0 ==> step == Step::Done(
                hdata_from_reply(self.plugin_ptr(), self.object_ptr(), replies@[0]),
            ),
    ;
}

/// The table that the host's answer to a lookup stands for.
pub open spec fn hdata_from_reply(plugin: usize, object: usize, reply: HostReply) -> Option<HData> {
    match reply {
        HostReply::Pointer(ptr) => if ptr != 0 {
            Some(HData { weechat_ptr: plugin, object, ptr })
        } else {
            None
        },
        _ => None,
    }
}

/// Looks up the table named `name` for the object behind `object`.
fn lookup(plugin: usize, object: usize, name: &str, replies: &Vec<HostReply>) -> (step: Step<HData>)
    ensures
        replies@.len() == 0 ==> (step matches Step::Call(call) && asks_hdata(call, plugin, name@)),
        replies@.len() > 0 ==> step == Step::Done(hdata_from_reply(plugin, object, replies@[0])),
{
    if replies.len() == 0 {
        return Step::Call(HostCall::HdataGet { plugin, name: name.to_owned() });
    }
    match &replies[0] {
        HostReply::Pointer(ptr) => {
            if *ptr != 0 {
                Step::Done(Some(HData { weechat_ptr: plugin, object, ptr: *ptr }))
            } else {
                Step::Done(None)
            }
        },
        _ => Step::Done(None),
    }
}

impl HasHData for Buffer {
    open spec fn object_ptr(&self) -> usize {
        self.ptr
    }

    open spec fn plugin_ptr(&self) -> usize {
        self.weechat
    }

    fn get_hdata(&self, name: &str, replies: &Vec<HostReply>) -> (step: Step<HData>) {
        lookup(self.weechat, self.ptr, name, replies)
    }
}

impl HasHData for HDataPointer {
    open spec fn object_ptr(&self) -> usize {
        self.ptr
    }

    open spec fn plugin_ptr(&self) -> usize {
        self.weechat
    }

    fn get_hdata(&self, name: &str, replies: &Vec<HostReply>) -> (step: Step<HData>) {
        lookup(self.weechat, self.ptr, name, replies)
    }
}

/// A type that a table variable can be read as.
pub trait HDataType: Sized {
    /// The type tag that a table declares for variables of this type.
    spec fn tag() -> i32;

    /// The value that the getter's answer stands for, or `None` where it
    /// stands for none.
    spec fn wrap(hdata: HData, reply: HostReply) -> Option<Self>;

    /// Reads the variable `name` of `hdata` as a value of this type, one
    /// move at a time, as `HData::get_var` describes.
    fn hdata_value(hdata: &HData, name: &str, replies: &Vec<HostReply>) -> (step: Step<Self>)
        ensures
            read_step(step, *hdata, name@, replies@, Self::tag(), Self::wrap(*hdata, replies@[1])),
    ;
}

impl HDataType for String {
    open spec fn tag() -> i32 {
        WEECHAT_HDATA_STRING
    }

    /// A text is itself; a null pointer is no text.
    open spec fn wrap(hdata: HData, reply: HostReply) -> Option<String> {
        match reply {
            HostReply::Text(text) => text,
            _ => None,
        }
    }

    fn hdata_value(hdata: &HData, name: &str, replies: &Vec<HostReply>) -> (step: Step<String>) {
        match HData::stage(replies, WEECHAT_HDATA_STRING) {
            ReadStage::AskType => Step::Call(hdata.var_type_call(name)),
            ReadStage::Mismatch => Step::Done(None),
            ReadStage::AskValue => Step::Call(
                HostCall::HdataString { hdata: hdata.ptr, object: hdata.object, name: name.to_owned() },
            ),
            ReadStage::HaveValue => match &replies[1] {
                HostReply::Text(Some(text)) => Step::Done(Some(text.clone())),
                _ => Step::Done(None),
            },
        }
    }
}

/// The character that the host's character `c` stands for: the one with
/// that code, and none where `c` is negative.
pub open spec fn char_from_host(c: i8) -> Option<char> {
    if c >= 0 {
        Some(c as u8 as char)
    } else {
        None
    }
}

impl HDataType for char {
    open spec fn tag() -> i32 {
        WEECHAT_HDATA_CHAR
    }

    open spec fn wrap(hdata: HData, reply: HostReply) -> Option<char> {
        match reply {
            HostReply::Char(c) => char_from_host(c),
            _ => None,
        }
    }

    fn hdata_value(hdata: &HData, name: &str, replies: &Vec<HostReply>) -> (step: Step<char>) {
        match HData::stage(replies, WEECHAT_HDATA_CHAR) {
            ReadStage::AskType => Step::Call(hdata.var_type_call(name)),
            ReadStage::Mismatch => Step::Done(None),
            ReadStage::AskValue => Step::Call(
                HostCall::HdataChar { hdata: hdata.ptr, object: hdata.object, name: name.to_owned() },
            ),
            ReadStage::HaveValue => match &replies[1] {
                HostReply::Char(c) => {
                    if *c >= 0 {
                        Step::Done(Some(*c as u8 as char))
                    } else {
                        Step::Done(None)
                    }
                },
                _ => Step::Done(None),
            },
        }
    }
}

impl HDataType for i64 {
    open spec fn tag() -> i32 {
        WEECHAT_HDATA_LONG
    }

    open spec fn wrap(hdata: HData, reply: HostReply) -> Option<i64> {
        match reply {
            HostReply::Long(value) => Some(value),
            _ => None,
        }
    }

    fn hdata_value(hdata: &HData, name: &str, replies: &Vec<HostReply>) -> (step: Step<i64>) {
        match HData::stage(replies, WEECHAT_HDATA_LONG) {
            ReadStage::AskType => Step::Call(hdata.var_type_call(name)),
            ReadStage::Mismatch => Step::Done(None),
            ReadStage::AskValue => Step::Call(
                HostCall::HdataLong { hdata: hdata.ptr, object: hdata.object, name: name.to_owned() },
            ),
            ReadStage::HaveValue => match &replies[1] {
                HostReply::Long(value) => Step::Done(Some(*value)),
                _ => Step::Done(None),
            },
        }
    }
}

impl HDataType for i32 {
    open spec fn tag() -> i32 {
        WEECHAT_HDATA_INTEGER
    }

    open spec fn wrap(hdata: HData, reply: HostReply) -> Option<i32> {
        match reply {
            HostReply::Integer(value) => Some(value),
            _ => None,
        }
    }

    fn hdata_value(hdata: &HData, name: &str, replies: &Vec<HostReply>) -> (step: Step<i32>) {
        match HData::stage(replies, WEECHAT_HDATA_INTEGER) {
            ReadStage::AskType => Step::Call(hdata.var_type_call(name)),
            ReadStage::Mismatch => Step::Done(None),
            ReadStage::AskValue => Step::Call(
                HostCall::HdataInteger {
                    hdata: hdata.ptr,
                    object: hdata.object,
                    name: name.to_owned(),
                },
            ),
            ReadStage::HaveValue => match &replies[1] {
                HostReply::Integer(value) => Step::Done(Some(*value)),
                _ => Step::Done(None),
            },
        }
    }
}

impl HDataType for chrono::NaiveDateTime {
    open spec fn tag() -> i32 {
        WEECHAT_HDATA_TIME
    }

    /// A timestamp is the UTC date and time that lies as many seconds after
    /// the Unix epoch.
    open spec fn wrap(hdata: HData, reply: HostReply) -> Option<chrono::NaiveDateTime> {
        match reply {
            HostReply::Time(secs) => utc_from_timestamp(secs),
            _ => None,
        }
    }

    fn hdata_value(hdata: &HData, name: &str, replies: &Vec<HostReply>) -> (step: Step<
        chrono::NaiveDateTime,
    >) {
        match HData::stage(replies, WEECHAT_HDATA_TIME) {
            ReadStage::AskType => Step::Call(hdata.var_type_call(name)),
            ReadStage::Mismatch => Step::Done(None),
            ReadStage::AskValue => Step::Call(
                HostCall::HdataTime { hdata: hdata.ptr, object: hdata.object, name: name.to_owned() },
            ),
            ReadStage::HaveValue => match &replies[1] {
                HostReply::Time(secs) => Step::Done(datetime_from_timestamp(*secs)),
                _ => Step::Done(None),
            },
        }
    }
}

impl HDataType for HDataPointer {
    open spec fn tag() -> i32 {
        WEECHAT_HDATA_POINTER
    }

    /// A pointer that is not null is wrapped with the table's plugin
    /// context; a null pointer is no object.
    open spec fn wrap(hdata: HData, reply: HostReply) -> Option<HDataPointer> {
        match reply {
            HostReply::Pointer(ptr) => if ptr != 0 {
                Some(HDataPointer { ptr, weechat: hdata.weechat_ptr })
            } else {
                None
            },
            _ => None,
        }
    }

    fn hdata_value(hdata: &HData, name: &str, replies: &Vec<HostReply>) -> (step: Step<
        HDataPointer,
    >) {
        match HData::stage(replies, WEECHAT_HDATA_POINTER) {
            ReadStage::AskType => Step::Call(hdata.var_type_call(name)),
            ReadStage::Mismatch => Step::Done(None),
            ReadStage::AskValue => Step::Call(
                HostCall::HdataPointer {
                    hdata: hdata.ptr,
                    object: hdata.object,
                    name: name.to_owned(),
                },
            ),
            ReadStage::HaveValue => match &replies[1] {
                HostReply::Pointer(ptr) => {
                    if *ptr != 0 {
                        Step::Done(Some(HDataPointer { ptr: *ptr, weechat: hdata.weechat_ptr }))
                    } else {
                        Step::Done(None)
                    }
                },
                _ => Step::Done(None),
            },
        }
    }
}

} // verus!
