use weechat::hdata::{HData, HDataPointer, HDataType, HasHData, ReadStage};
use weechat::host::{
    Buffer, HostCall, HostReply, Step, WEECHAT_HDATA_CHAR, WEECHAT_HDATA_HASHTABLE,
    WEECHAT_HDATA_INTEGER, WEECHAT_HDATA_LONG, WEECHAT_HDATA_OTHER, WEECHAT_HDATA_POINTER,
    WEECHAT_HDATA_SHARED_STRING, WEECHAT_HDATA_STRING, WEECHAT_HDATA_TIME,
};

const PLUGIN: usize = 0x1000;
const TABLE: usize = 0x2000;
const OBJECT: usize = 0x3000;

fn table() -> HData {
    HData { weechat_ptr: PLUGIN, object: OBJECT, ptr: TABLE }
}

/// A host with one table of variables.
struct FakeHost {
    fields: Vec<(String, i32, HostReply)>,
    getter_calls: usize,
}

impl FakeHost {
    fn new() -> FakeHost {
        let fields = vec![
            ("name".to_string(), WEECHAT_HDATA_STRING, HostReply::Text(Some("core".to_string()))),
            ("title".to_string(), WEECHAT_HDATA_STRING, HostReply::Text(None)),
            ("number".to_string(), WEECHAT_HDATA_INTEGER, HostReply::Integer(7)),
            ("lines".to_string(), WEECHAT_HDATA_LONG, HostReply::Long(1 << 40)),
            ("type".to_string(), WEECHAT_HDATA_CHAR, HostReply::Char(65)),
            ("date".to_string(), WEECHAT_HDATA_TIME, HostReply::Time(1431648000)),
            ("next".to_string(), WEECHAT_HDATA_POINTER, HostReply::Pointer(0x4000)),
            ("prev".to_string(), WEECHAT_HDATA_POINTER, HostReply::Pointer(0)),
        ];
        FakeHost { fields, getter_calls: 0 }
    }

    fn field(&self, name: &str) -> Option<&(String, i32, HostReply)> {
        self.fields.iter().find(|f| f.0 == name)
    }

    fn perform(&mut self, call: &HostCall) -> HostReply {
        match call {
            HostCall::HdataGet { name, .. } => {
                if name == "buffer" {
                    HostReply::Pointer(TABLE)
                } else {
                    HostReply::Pointer(0)
                }
            }
            HostCall::HdataGetVarType { name, .. } => match self.field(name) {
                Some(f) => HostReply::Integer(f.1),
                None => HostReply::Integer(-1),
            },
            HostCall::HdataChar { name, .. }
            | HostCall::HdataInteger { name, .. }
            | HostCall::HdataLong { name, .. }
            | HostCall::HdataString { name, .. }
            | HostCall::HdataPointer { name, .. }
            | HostCall::HdataTime { name, .. } => {
                self.getter_calls += 1;
                self.field(name).unwrap().2.clone()
            }
            other => panic!("not a table call: {:?}", other),
        }
    }

    fn read<T: HDataType>(&mut self, hdata: &HData, name: &str) -> Option<T> {
        let mut replies: Vec<HostReply> = Vec::new();
        loop {
            match hdata.get_var::<T>(name, &replies) {
                Step::Call(call) => {
                    let reply = self.perform(&call);
                    replies.push(reply);
                }
                Step::Done(value) => return value,
            }
        }
    }
}

fn utc(secs: i64) -> chrono::NaiveDateTime {
    chrono::DateTime::from_timestamp(secs, 0).unwrap().naive_utc()
}

#[test]
fn stage_follows_the_answers() {
    assert_eq!(HData::stage(&vec![], WEECHAT_HDATA_LONG), ReadStage::AskType);
    assert_eq!(
        HData::stage(&vec![HostReply::Integer(WEECHAT_HDATA_STRING)], WEECHAT_HDATA_LONG),
        ReadStage::Mismatch
    );
    assert_eq!(
        HData::stage(&vec![HostReply::Long(WEECHAT_HDATA_LONG as i64)], WEECHAT_HDATA_LONG),
        ReadStage::Mismatch
    );
    assert_eq!(
        HData::stage(&vec![HostReply::Integer(WEECHAT_HDATA_LONG)], WEECHAT_HDATA_LONG),
        ReadStage::AskValue
    );
    assert_eq!(
        HData::stage(
            &vec![HostReply::Integer(WEECHAT_HDATA_LONG), HostReply::Long(1)],
            WEECHAT_HDATA_LONG
        ),
        ReadStage::HaveValue
    );
    assert_eq!(
        HData::stage(
            &vec![HostReply::Integer(WEECHAT_HDATA_CHAR), HostReply::Long(1)],
            WEECHAT_HDATA_LONG
        ),
        ReadStage::Mismatch
    );
}

#[test]
fn a_read_asks_for_the_declared_type_first() {
    let hdata = table();
    let expected =
        Step::Call(HostCall::HdataGetVarType { hdata: TABLE, name: "number".to_string() });
    assert_eq!(hdata.get_var::<i32>("number", &vec![]), expected);
    assert_eq!(hdata.var_type_call("number"), HostCall::HdataGetVarType { hdata: TABLE, name: "number".to_string() });
    assert_eq!(
        hdata.get_var::<String>("name", &vec![]),
        Step::Call(HostCall::HdataGetVarType { hdata: TABLE, name: "name".to_string() })
    );
}

#[test]
fn a_read_uses_the_getter_of_its_type() {
    let hdata = table();
    let name = "x".to_string();
    assert_eq!(
        hdata.get_var::<String>("x", &vec![HostReply::Integer(WEECHAT_HDATA_STRING)]),
        Step::Call(HostCall::HdataString { hdata: TABLE, object: OBJECT, name: name.clone() })
    );
    assert_eq!(
        hdata.get_var::<char>("x", &vec![HostReply::Integer(WEECHAT_HDATA_CHAR)]),
        Step::Call(HostCall::HdataChar { hdata: TABLE, object: OBJECT, name: name.clone() })
    );
    assert_eq!(
        hdata.get_var::<i32>("x", &vec![HostReply::Integer(WEECHAT_HDATA_INTEGER)]),
        Step::Call(HostCall::HdataInteger { hdata: TABLE, object: OBJECT, name: name.clone() })
    );
    assert_eq!(
        hdata.get_var::<i64>("x", &vec![HostReply::Integer(WEECHAT_HDATA_LONG)]),
        Step::Call(HostCall::HdataLong { hdata: TABLE, object: OBJECT, name: name.clone() })
    );
    assert_eq!(
        hdata.get_var::<chrono::NaiveDateTime>("x", &vec![HostReply::Integer(WEECHAT_HDATA_TIME)]),
        Step::Call(HostCall::HdataTime { hdata: TABLE, object: OBJECT, name: name.clone() })
    );
    assert_eq!(
        hdata.get_var::<HDataPointer>("x", &vec![HostReply::Integer(WEECHAT_HDATA_POINTER)]),
        Step::Call(HostCall::HdataPointer { hdata: TABLE, object: OBJECT, name })
    );
}

fn all_tags() -> Vec<i32> {
    vec![
        WEECHAT_HDATA_OTHER,
        WEECHAT_HDATA_CHAR,
        WEECHAT_HDATA_INTEGER,
        WEECHAT_HDATA_LONG,
        WEECHAT_HDATA_STRING,
        WEECHAT_HDATA_POINTER,
        WEECHAT_HDATA_TIME,
        WEECHAT_HDATA_HASHTABLE,
        WEECHAT_HDATA_SHARED_STRING,
        -1,
        99,
    ]
}

fn mismatch_is_absent<T: HDataType + PartialEq + std::fmt::Debug>(own_tag: i32, value: HostReply) {
    let hdata = table();
    for tag in all_tags() {
        if tag == own_tag {
            continue;
        }
        // Whether or not a value was read after all, the result is absent.
        assert_eq!(hdata.get_var::<T>("x", &vec![HostReply::Integer(tag)]), Step::Done(None));
        assert_eq!(
            hdata.get_var::<T>("x", &vec![HostReply::Integer(tag), value.clone()]),
            Step::Done(None)
        );
    }
}

#[test]
fn a_mismatched_type_is_absent_for_text() {
    mismatch_is_absent::<String>(WEECHAT_HDATA_STRING, HostReply::Text(Some("t".to_string())));
}

#[test]
fn a_mismatched_type_is_absent_for_characters() {
    mismatch_is_absent::<char>(WEECHAT_HDATA_CHAR, HostReply::Char(65));
}

#[test]
fn a_mismatched_type_is_absent_for_integers() {
    mismatch_is_absent::<i32>(WEECHAT_HDATA_INTEGER, HostReply::Integer(7));
}

#[test]
fn a_mismatched_type_is_absent_for_longs() {
    mismatch_is_absent::<i64>(WEECHAT_HDATA_LONG, HostReply::Long(7));
}

#[test]
fn a_mismatched_type_is_absent_for_times() {
    mismatch_is_absent::<chrono::NaiveDateTime>(WEECHAT_HDATA_TIME, HostReply::Time(7));
}

#[test]
fn a_mismatched_type_is_absent_for_pointers() {
    mismatch_is_absent::<HDataPointer>(WEECHAT_HDATA_POINTER, HostReply::Pointer(7));
}

#[test]
fn a_type_answer_of_the_wrong_kind_is_a_mismatch() {
    let hdata = table();
    assert_eq!(
        hdata.get_var::<i64>("x", &vec![HostReply::Long(WEECHAT_HDATA_LONG as i64)]),
        Step::Done(None)
    );
}

#[test]
fn a_value_of_the_declared_type_is_wrapped() {
    let hdata = table();
    assert_eq!(
        hdata.get_var::<String>(
            "x",
            &vec![HostReply::Integer(WEECHAT_HDATA_STRING), HostReply::Text(Some("core".to_string()))]
        ),
        Step::Done(Some("core".to_string()))
    );
    assert_eq!(
        hdata.get_var::<i32>("x", &vec![HostReply::Integer(WEECHAT_HDATA_INTEGER), HostReply::Integer(-3)]),
        Step::Done(Some(-3))
    );
    assert_eq!(
        hdata.get_var::<i64>("x", &vec![HostReply::Integer(WEECHAT_HDATA_LONG), HostReply::Long(i64::MIN)]),
        Step::Done(Some(i64::MIN))
    );
    assert_eq!(
        hdata.get_var::<char>("x", &vec![HostReply::Integer(WEECHAT_HDATA_CHAR), HostReply::Char(97)]),
        Step::Done(Some('a'))
    );
    assert_eq!(
        hdata.get_var::<HDataPointer>(
            "x",
            &vec![HostReply::Integer(WEECHAT_HDATA_POINTER), HostReply::Pointer(0x4000)]
        ),
        Step::Done(Some(HDataPointer { ptr: 0x4000, weechat: PLUGIN }))
    );
}

#[test]
fn a_null_text_is_absent() {
    let hdata = table();
    assert_eq!(
        hdata.get_var::<String>("x", &vec![HostReply::Integer(WEECHAT_HDATA_STRING), HostReply::Text(None)]),
        Step::Done(None)
    );
}

#[test]
fn a_null_pointer_is_absent() {
    let hdata = table();
    assert_eq!(
        hdata.get_var::<HDataPointer>("x", &vec![HostReply::Integer(WEECHAT_HDATA_POINTER), HostReply::Pointer(0)]),
        Step::Done(None)
    );
}

#[test]
fn a_negative_character_is_absent() {
    let hdata = table();
    assert_eq!(
        hdata.get_var::<char>("x", &vec![HostReply::Integer(WEECHAT_HDATA_CHAR), HostReply::Char(-1)]),
        Step::Done(None)
    );
    assert_eq!(
        hdata.get_var::<char>("x", &vec![HostReply::Integer(WEECHAT_HDATA_CHAR), HostReply::Char(0)]),
        Step::Done(Some('\0'))
    );
    assert_eq!(
        hdata.get_var::<char>("x", &vec![HostReply::Integer(WEECHAT_HDATA_CHAR), HostReply::Char(127)]),
        Step::Done(Some('\u{7f}'))
    );
}

#[test]
fn a_value_of_the_wrong_kind_is_absent() {
    let hdata = table();
    assert_eq!(
        hdata.get_var::<i32>("x", &vec![HostReply::Integer(WEECHAT_HDATA_INTEGER), HostReply::Long(5)]),
        Step::Done(None)
    );
    assert_eq!(
        hdata.get_var::<i64>("x", &vec![HostReply::Integer(WEECHAT_HDATA_LONG), HostReply::Integer(5)]),
        Step::Done(None)
    );
    assert_eq!(
        hdata.get_var::<String>("x", &vec![HostReply::Integer(WEECHAT_HDATA_STRING), HostReply::Pointer(5)]),
        Step::Done(None)
    );
    assert_eq!(
        hdata.get_var::<chrono::NaiveDateTime>("x", &vec![HostReply::Integer(WEECHAT_HDATA_TIME), HostReply::Long(5)]),
        Step::Done(None)
    );
    assert_eq!(
        hdata.get_var::<HDataPointer>("x", &vec![HostReply::Integer(WEECHAT_HDATA_POINTER), HostReply::Long(5)]),
        Step::Done(None)
    );
    assert_eq!(
        hdata.get_var::<char>("x", &vec![HostReply::Integer(WEECHAT_HDATA_CHAR), HostReply::Integer(65)]),
        Step::Done(None)
    );
}

#[test]
fn a_timestamp_becomes_a_calendar_time() {
    let hdata = table();
    let step = hdata.get_var::<chrono::NaiveDateTime>(
        "x",
        &vec![HostReply::Integer(WEECHAT_HDATA_TIME), HostReply::Time(1431648000)],
    );
    let expected = chrono::NaiveDate::from_ymd_opt(2015, 5, 15).unwrap().and_hms_opt(0, 0, 0).unwrap();
    assert_eq!(step, Step::Done(Some(expected)));
    match step {
        Step::Done(Some(time)) => {
            assert_eq!(time.and_utc().timestamp(), 1431648000);
            assert_eq!(time.to_string(), "2015-05-15 00:00:00");
        }
        other => panic!("not a time: {:?}", other),
    }
    let epoch =
        hdata.get_var::<chrono::NaiveDateTime>("x", &vec![HostReply::Integer(WEECHAT_HDATA_TIME), HostReply::Time(0)]);
    assert_eq!(epoch, Step::Done(Some(utc(0))));
    let before =
        hdata.get_var::<chrono::NaiveDateTime>("x", &vec![HostReply::Integer(WEECHAT_HDATA_TIME), HostReply::Time(-1)]);
    assert_eq!(
        before,
        Step::Done(Some(chrono::NaiveDate::from_ymd_opt(1969, 12, 31).unwrap().and_hms_opt(23, 59, 59).unwrap()))
    );
}

#[test]
fn a_timestamp_out_of_the_calendar_is_absent() {
    let hdata = table();
    assert_eq!(
        hdata.get_var::<chrono::NaiveDateTime>(
            "x",
            &vec![HostReply::Integer(WEECHAT_HDATA_TIME), HostReply::Time(i64::MAX)]
        ),
        Step::Done(None)
    );
    assert_eq!(
        hdata.get_var::<chrono::NaiveDateTime>(
            "x",
            &vec![HostReply::Integer(WEECHAT_HDATA_TIME), HostReply::Time(i64::MIN)]
        ),
        Step::Done(None)
    );
}

#[test]
fn hdata_value_and_get_var_agree() {
    let hdata = table();
    let replies = vec![HostReply::Integer(WEECHAT_HDATA_INTEGER), HostReply::Integer(12)];
    assert_eq!(i32::hdata_value(&hdata, "x", &replies), hdata.get_var::<i32>("x", &replies));
    assert_eq!(i32::hdata_value(&hdata, "x", &replies), Step::Done(Some(12)));
}

#[test]
fn get_hdata_asks_the_host_for_the_table() {
    let buffer = Buffer::from_ptr(PLUGIN, OBJECT);
    assert_eq!(
        buffer.get_hdata("buffer", &vec![]),
        Step::Call(HostCall::HdataGet { plugin: PLUGIN, name: "buffer".to_string() })
    );
    let pointer = HDataPointer { ptr: 0x4000, weechat: PLUGIN };
    assert_eq!(
        pointer.get_hdata("line", &vec![]),
        Step::Call(HostCall::HdataGet { plugin: PLUGIN, name: "line".to_string() })
    );
}

#[test]
fn get_hdata_ties_the_table_to_the_object() {
    let buffer = Buffer::from_ptr(PLUGIN, OBJECT);
    assert_eq!(
        buffer.get_hdata("buffer", &vec![HostReply::Pointer(TABLE)]),
        Step::Done(Some(HData { weechat_ptr: PLUGIN, object: OBJECT, ptr: TABLE }))
    );
    let pointer = HDataPointer { ptr: 0x4000, weechat: PLUGIN };
    assert_eq!(
        pointer.get_hdata("line", &vec![HostReply::Pointer(0x2100)]),
        Step::Done(Some(HData { weechat_ptr: PLUGIN, object: 0x4000, ptr: 0x2100 }))
    );
}

#[test]
fn get_hdata_of_an_unknown_table_is_absent() {
    let buffer = Buffer::from_ptr(PLUGIN, OBJECT);
    assert_eq!(buffer.get_hdata("nothing", &vec![HostReply::Pointer(0)]), Step::Done(None));
    assert_eq!(buffer.get_hdata("nothing", &vec![HostReply::Integer(5)]), Step::Done(None));
    let pointer = HDataPointer { ptr: 0x4000, weechat: PLUGIN };
    assert_eq!(pointer.get_hdata("nothing", &vec![HostReply::Pointer(0)]), Step::Done(None));
}

#[test]
fn reads_against_a_host_give_typed_values() {
    let mut host = FakeHost::new();
    let buffer = Buffer::from_ptr(PLUGIN, OBJECT);
    let hdata = match buffer.get_hdata("buffer", &vec![]) {
        Step::Call(call) => {
            let reply = host.perform(&call);
            match buffer.get_hdata("buffer", &vec![reply]) {
                Step::Done(Some(hdata)) => hdata,
                other => panic!("no table: {:?}", other),
            }
        }
        other => panic!("no call: {:?}", other),
    };
    assert_eq!(hdata, table());

    assert_eq!(host.read::<String>(&hdata, "name"), Some("core".to_string()));
    assert_eq!(host.read::<String>(&hdata, "title"), None);
    assert_eq!(host.read::<i32>(&hdata, "number"), Some(7));
    assert_eq!(host.read::<i64>(&hdata, "lines"), Some(1 << 40));
    assert_eq!(host.read::<char>(&hdata, "type"), Some('A'));
    assert_eq!(host.read::<chrono::NaiveDateTime>(&hdata, "date"), Some(utc(1431648000)));
    assert_eq!(host.read::<HDataPointer>(&hdata, "next"), Some(HDataPointer { ptr: 0x4000, weechat: PLUGIN }));
    assert_eq!(host.read::<HDataPointer>(&hdata, "prev"), None);
    assert_eq!(host.getter_calls, 8);
}

#[test]
fn reads_of_another_type_never_reach_the_getter() {
    let mut host = FakeHost::new();
    let hdata = table();
    assert_eq!(host.read::<i32>(&hdata, "name"), None);
    assert_eq!(host.read::<i64>(&hdata, "number"), None);
    assert_eq!(host.read::<i32>(&hdata, "lines"), None);
    assert_eq!(host.read::<String>(&hdata, "type"), None);
    assert_eq!(host.read::<i64>(&hdata, "date"), None);
    assert_eq!(host.read::<String>(&hdata, "next"), None);
    assert_eq!(host.read::<char>(&hdata, "number"), None);
    assert_eq!(host.read::<chrono::NaiveDateTime>(&hdata, "lines"), None);
    assert_eq!(host.read::<HDataPointer>(&hdata, "name"), None);
    assert_eq!(host.read::<String>(&hdata, "missing"), None);
    assert_eq!(host.getter_calls, 0);
}

#[test]
fn nested_tables_are_walked_through_pointers() {
    let mut host = FakeHost::new();
    let hdata = table();
    let next = host.read::<HDataPointer>(&hdata, "next").unwrap();
    let call = match next.get_hdata("buffer", &vec![]) {
        Step::Call(call) => call,
        other => panic!("no call: {:?}", other),
    };
    let reply = host.perform(&call);
    let nested = match next.get_hdata("buffer", &vec![reply]) {
        Step::Done(Some(nested)) => nested,
        other => panic!("no table: {:?}", other),
    };
    assert_eq!(nested, HData { weechat_ptr: PLUGIN, object: 0x4000, ptr: TABLE });
    assert_eq!(host.read::<i32>(&nested, "number"), Some(7));
}
