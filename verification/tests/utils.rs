use addin_tools::error::AddinError;
use addin_tools::registry::{find_method, MethodInfo, PropInfo};
use addin_tools::utf16::{encode_name, encode_text};
use addin_tools::utils::{Addin, Effect, Outcome};
use addin_tools::value::{OutCell, Value};

fn text(s: &str) -> Value {
    Value::Str(encode_text(s))
}

fn utils_error(addin: &Addin) -> String {
    let mut out = OutCell::new();
    assert_eq!(addin.last_error(&mut out), Ok(()));
    out.value().read_as_string().unwrap()
}

#[test]
fn utils_is_registered_as_utils() {
    assert_eq!(Addin::name(), encode_name("Utils"));
    assert_eq!(Addin::name(), vec![0x55u16, 0x74, 0x69, 0x6C, 0x73, 0]);
}

#[test]
fn utils_methods_in_index_order() {
    let expected: Vec<MethodInfo> = [
        ("Pid", 0usize),
        ("Env", 1),
        ("Envs", 0),
        ("CurrentDir", 0),
        ("CurrentExe", 0),
        ("Print", 1),
        ("EPrint", 1),
        ("Sleep", 1),
    ]
    .iter()
    .map(|(name, arity)| MethodInfo { name: encode_name(name), arity: *arity })
    .collect();
    assert_eq!(Addin::methods(), expected);
    assert_eq!(find_method(&Addin::methods(), &encode_name("Sleep")), Some(7));
    assert_eq!(find_method(&Addin::methods(), &encode_name("Pid")), Some(0));
    assert_eq!(find_method(&Addin::methods(), &encode_text("Pid")), None);
}

#[test]
fn utils_has_one_read_only_property() {
    assert_eq!(
        Addin::properties(),
        vec![PropInfo { name: encode_name("LastError"), readable: true, writable: false }]
    );
}

#[test]
fn methods_without_arguments_ask_for_their_work() {
    let mut addin = Addin::new();
    assert_eq!(addin.invoke(0, &[]), Some(Effect::Pid));
    assert_eq!(addin.invoke(2, &[]), Some(Effect::Envs));
    assert_eq!(addin.invoke(3, &[]), Some(Effect::CurrentDir));
    assert_eq!(addin.invoke(4, &[]), Some(Effect::CurrentExe));
    assert_eq!(utils_error(&addin), "");
}

#[test]
fn env_asks_for_the_named_variable() {
    let mut addin = Addin::new();
    assert_eq!(addin.invoke(1, &[text("HOME")]), Some(Effect::Env("HOME".to_string())));
    assert_eq!(addin.invoke(1, &[text("\u{1F980}")]), Some(Effect::Env("\u{1F980}".to_string())));
}

#[test]
fn print_hands_over_utf8_bytes() {
    let mut addin = Addin::new();
    assert_eq!(
        addin.invoke(5, &[text("h\u{e9}\n")]),
        Some(Effect::Print(vec![0x68, 0xC3, 0xA9, 0x0A]))
    );
    assert_eq!(
        addin.invoke(6, &[text("\u{1F600}")]),
        Some(Effect::EPrint(vec![0xF0, 0x9F, 0x98, 0x80]))
    );
    assert_eq!(Addin::print(&text("")), Ok(vec![]));
    assert_eq!(Addin::eprint(&text("ok")), Ok(vec![0x6F, 0x6B]));
}

#[test]
fn sleep_zero_is_accepted() {
    let mut addin = Addin::new();
    assert_eq!(addin.invoke(7, &[Value::I32(0)]), Some(Effect::Sleep(0)));
    let mut out = OutCell::new();
    assert!(addin.complete(&Effect::Sleep(0), Outcome::Done, &mut out));
    assert!(!out.written());
    assert_eq!(utils_error(&addin), "");
}

#[test]
fn sleep_takes_milliseconds() {
    assert_eq!(Addin::sleep(&Value::I32(250)), Ok(250));
    assert_eq!(Addin::sleep(&Value::I32(i32::MAX)), Ok(2147483647));
}

#[test]
fn sleep_negative_is_a_range_error() {
    let mut addin = Addin::new();
    assert_eq!(addin.invoke(7, &[Value::I32(-1)]), None);
    assert_eq!(utils_error(&addin), "Value out of range");
    assert_eq!(Addin::sleep(&Value::I32(i32::MIN)), Err(AddinError::RangeError));
    assert_eq!(addin.invoke(7, &[Value::I32(-1)]), None);
    assert_eq!(utils_error(&addin), "Value out of range");
}

#[test]
fn wrong_argument_kind_is_a_type_mismatch() {
    let mut addin = Addin::new();
    assert_eq!(addin.invoke(1, &[Value::I32(3)]), None);
    assert_eq!(utils_error(&addin), "Incompatible type");
    assert_eq!(addin.invoke(5, &[Value::Blob(vec![0x41])]), None);
    assert_eq!(utils_error(&addin), "Incompatible type");
    assert_eq!(addin.invoke(7, &[text("5")]), None);
    assert_eq!(utils_error(&addin), "Incompatible type");
    assert_eq!(Addin::sleep(&Value::F64(0)), Err(AddinError::TypeMismatch));
}

#[test]
fn malformed_name_is_a_native_failure() {
    let mut addin = Addin::new();
    assert_eq!(addin.invoke(1, &[Value::Str(vec![0xD800])]), None);
    assert_eq!(utils_error(&addin), "Invalid UTF-16 text");
}

#[test]
fn wrong_argument_count_is_rejected_first() {
    let mut addin = Addin::new();
    assert_eq!(addin.invoke(1, &[]), None);
    assert_eq!(utils_error(&addin), "Wrong number of parameters");
    assert_eq!(addin.invoke(0, &[Value::I32(5)]), None);
    assert_eq!(utils_error(&addin), "Wrong number of parameters");
    assert_eq!(addin.invoke(7, &[Value::Empty, Value::Empty]), None);
    assert_eq!(utils_error(&addin), "Wrong number of parameters");
    assert_eq!(addin.invoke(5, &[Value::I32(1), text("x")]), None);
    assert_eq!(utils_error(&addin), "Wrong number of parameters");
}

#[test]
fn unknown_index_is_rejected() {
    let mut addin = Addin::new();
    assert_eq!(addin.invoke(8, &[]), None);
    assert_eq!(utils_error(&addin), "Unknown method");
    assert_eq!(addin.invoke(usize::MAX, &[Value::I32(1)]), None);
    assert_eq!(utils_error(&addin), "Unknown method");
}

#[test]
fn pid_is_written_as_integer() {
    let mut out = OutCell::new();
    assert_eq!(Addin::pid(4242, &mut out), Ok(()));
    assert_eq!(out.value(), &Value::I32(4242));
    let mut top = OutCell::new();
    assert_eq!(Addin::pid(2147483647, &mut top), Ok(()));
    assert_eq!(top.value(), &Value::I32(i32::MAX));
}

#[test]
fn pid_beyond_the_width_is_a_range_error() {
    let mut out = OutCell::new();
    assert_eq!(Addin::pid(2147483648, &mut out), Err(AddinError::RangeError));
    assert!(!out.written());
    let mut addin = Addin::new();
    let mut cell = OutCell::new();
    assert!(!addin.complete(&Effect::Pid, Outcome::Pid(u32::MAX), &mut cell));
    assert!(!cell.written());
    assert_eq!(utils_error(&addin), "Value out of range");
}

#[test]
fn env_set_variable_is_its_exact_value() {
    let mut out = OutCell::new();
    assert_eq!(Addin::env(Some(&encode_text("a=b c\u{1F600}")), &mut out), Ok(()));
    assert_eq!(out.value(), &text("a=b c\u{1F600}"));
    let mut blank = OutCell::new();
    assert_eq!(Addin::env(Some(&[]), &mut blank), Ok(()));
    assert_eq!(blank.value(), &Value::Str(vec![]));
}

#[test]
fn env_value_that_is_not_unicode_passes_unchanged() {
    let odd: Vec<u16> = vec![0x61, 0xDC00, 0x3D, 0xD800, 0x0A, 0];
    let mut out = OutCell::new();
    assert_eq!(Addin::env(Some(&odd), &mut out), Ok(()));
    assert_eq!(out.value(), &Value::Str(odd.clone()));
    let mut addin = Addin::new();
    let mut cell = OutCell::new();
    assert!(addin.complete(&Effect::Env("X".to_string()), Outcome::Var(Some(odd.clone())), &mut cell));
    assert_eq!(cell.value(), &Value::Str(odd));
}

#[test]
fn env_unset_variable_is_empty_not_an_error() {
    let mut out = OutCell::new();
    assert_eq!(Addin::env(None, &mut out), Ok(()));
    assert!(out.written());
    assert_eq!(out.value(), &Value::Empty);
    let mut addin = Addin::new();
    let mut cell = OutCell::new();
    assert!(addin.complete(&Effect::Env("NOPE".to_string()), Outcome::Var(None), &mut cell));
    assert_eq!(cell.value(), &Value::Empty);
    assert_eq!(utils_error(&addin), "");
}

#[test]
fn envs_puts_each_variable_on_its_line() {
    let pairs = [("HOME", "/root"), ("EMPTY", ""), ("K", "a=b")];
    let vars: Vec<(Vec<u16>, Vec<u16>)> =
        pairs.iter().map(|(name, value)| (encode_text(name), encode_text(value))).collect();
    let mut out = OutCell::new();
    assert_eq!(Addin::envs(&vars, &mut out), Ok(()));
    assert_eq!(out.value(), &text("HOME=/root\nEMPTY=\nK=a=b\n"));
    let block = out.value().read_as_string().unwrap();
    for ((name, value), (_, units)) in pairs.iter().zip(&vars) {
        let mut single = OutCell::new();
        assert_eq!(Addin::env(Some(units), &mut single), Ok(()));
        assert_eq!(single.value().read_as_string().unwrap(), *value);
        assert!(block.contains(&format!("{}={}\n", name, value)));
    }
}

#[test]
fn envs_keeps_units_that_are_not_unicode() {
    let vars: Vec<(Vec<u16>, Vec<u16>)> = vec![(vec![0x41, 0xD800], vec![0xDC00]), (vec![0x42], vec![])];
    let mut out = OutCell::new();
    assert_eq!(Addin::envs(&vars, &mut out), Ok(()));
    assert_eq!(out.value(), &Value::Str(vec![0x41, 0xD800, 0x3D, 0xDC00, 0x0A, 0x42, 0x3D, 0x0A]));
}

#[test]
fn envs_of_nothing_is_the_empty_string() {
    let mut out = OutCell::new();
    assert_eq!(Addin::envs(&[], &mut out), Ok(()));
    assert_eq!(out.value(), &Value::Str(vec![]));
}

#[test]
fn paths_are_written_as_wide_strings() {
    let mut dir = OutCell::new();
    assert_eq!(Addin::current_dir(&encode_text("/tmp/w\u{f6}rk"), &mut dir), Ok(()));
    assert_eq!(dir.value(), &text("/tmp/w\u{f6}rk"));
    let mut exe = OutCell::new();
    assert_eq!(Addin::current_exe(&encode_text("C:\\bin\\host.exe"), &mut exe), Ok(()));
    assert_eq!(exe.value(), &text("C:\\bin\\host.exe"));
}

#[test]
fn paths_that_are_not_unicode_pass_unchanged() {
    let odd: Vec<u16> = vec![0x43, 0x3A, 0x5C, 0xD800, 0x61, 0xDC00];
    let mut dir = OutCell::new();
    assert_eq!(Addin::current_dir(&odd, &mut dir), Ok(()));
    assert_eq!(dir.value(), &Value::Str(odd.clone()));
    let mut addin = Addin::new();
    let mut exe = OutCell::new();
    assert!(addin.complete(&Effect::CurrentExe, Outcome::Path(odd.clone()), &mut exe));
    assert_eq!(exe.value(), &Value::Str(odd));
}

#[test]
fn complete_marshals_each_result() {
    let mut addin = Addin::new();
    let mut out = OutCell::new();
    assert!(addin.complete(&Effect::Pid, Outcome::Pid(17), &mut out));
    assert_eq!(out.value(), &Value::I32(17));
    let mut out = OutCell::new();
    assert!(addin.complete(&Effect::Env("X".to_string()), Outcome::Var(Some(encode_text("y"))), &mut out));
    assert_eq!(out.value(), &text("y"));
    let mut out = OutCell::new();
    assert!(addin.complete(
        &Effect::Envs,
        Outcome::Vars(vec![(encode_text("A"), encode_text("1"))]),
        &mut out
    ));
    assert_eq!(out.value(), &text("A=1\n"));
    let mut out = OutCell::new();
    assert!(addin.complete(&Effect::CurrentDir, Outcome::Path(encode_text("/")), &mut out));
    assert_eq!(out.value(), &text("/"));
    let mut out = OutCell::new();
    assert!(addin.complete(&Effect::CurrentExe, Outcome::Path(encode_text("/bin/x")), &mut out));
    assert_eq!(out.value(), &text("/bin/x"));
    let mut out = OutCell::new();
    assert!(addin.complete(&Effect::Print(vec![1]), Outcome::Done, &mut out));
    assert!(!out.written());
    assert!(addin.complete(&Effect::EPrint(vec![]), Outcome::Done, &mut out));
    assert!(!out.written());
    assert_eq!(utils_error(&addin), "");
}

#[test]
fn refusal_is_recorded_with_its_text() {
    let mut addin = Addin::new();
    let mut out = OutCell::new();
    assert!(!addin.complete(
        &Effect::CurrentDir,
        Outcome::Failed("No such file or directory".to_string()),
        &mut out
    ));
    assert!(!out.written());
    assert_eq!(utils_error(&addin), "No such file or directory");
    assert!(!addin.complete(&Effect::Print(vec![]), Outcome::Failed(String::new()), &mut out));
    assert_eq!(utils_error(&addin), "Unknown error");
}

#[test]
fn outcome_that_does_not_answer_is_a_failure() {
    let mut addin = Addin::new();
    let mut out = OutCell::new();
    assert!(!addin.complete(&Effect::Pid, Outcome::Done, &mut out));
    assert!(!out.written());
    assert_eq!(utils_error(&addin), "Unexpected outcome");
    assert!(!addin.complete(&Effect::Sleep(1), Outcome::Pid(1), &mut out));
    assert!(!addin.complete(&Effect::Envs, Outcome::Path(encode_text("/")), &mut out));
    assert!(!addin.complete(&Effect::Env("A".to_string()), Outcome::Vars(vec![]), &mut out));
    assert!(!out.written());
}

#[test]
fn error_is_kept_until_the_next_call_clears_it() {
    let mut addin = Addin::new();
    assert_eq!(addin.invoke(7, &[Value::I32(-5)]), None);
    let mut first = OutCell::new();
    assert!(addin.invoke_property_get(0, &mut first));
    assert_eq!(first.value(), &text("Value out of range"));
    let mut second = OutCell::new();
    assert!(addin.invoke_property_get(0, &mut second));
    assert_eq!(second.value(), &text("Value out of range"));
    let effect = addin.invoke(7, &[Value::I32(5)]).unwrap();
    let mut out = OutCell::new();
    assert!(addin.complete(&effect, Outcome::Done, &mut out));
    let mut third = OutCell::new();
    assert!(addin.invoke_property_get(0, &mut third));
    assert_eq!(third.value(), &Value::Str(vec![]));
}

#[test]
fn same_calls_give_the_same_slot() {
    let run = || {
        let mut addin = Addin::new();
        let mut seen = Vec::new();
        addin.invoke(1, &[]);
        seen.push(utils_error(&addin));
        addin.invoke(0, &[]);
        seen.push(utils_error(&addin));
        let mut out = OutCell::new();
        addin.complete(&Effect::Pid, Outcome::Failed("x".to_string()), &mut out);
        seen.push(utils_error(&addin));
        seen
    };
    assert_eq!(run(), run());
    assert_eq!(run(), vec!["Wrong number of parameters".to_string(), String::new(), "x".to_string()]);
}

#[test]
fn utils_unknown_property_read_fails() {
    let mut addin = Addin::new();
    let mut out = OutCell::new();
    assert!(!addin.invoke_property_get(3, &mut out));
    assert!(!out.written());
    assert_eq!(utils_error(&addin), "Unknown property");
}

#[test]
fn utils_property_write_is_refused() {
    let mut addin = Addin::new();
    assert!(!addin.invoke_property_set(0, &text("x")));
    assert_eq!(utils_error(&addin), "Property is read-only");
    assert!(!addin.invoke_property_set(1, &text("x")));
    assert_eq!(utils_error(&addin), "Unknown property");
}

#[test]
fn utils_save_error_sets_the_slot() {
    let mut addin = Addin::new();
    addin.save_error(Some(AddinError::NativeFailure("broken pipe".to_string())));
    assert_eq!(utils_error(&addin), "broken pipe");
    addin.save_error(None);
    assert_eq!(utils_error(&addin), "");
}
