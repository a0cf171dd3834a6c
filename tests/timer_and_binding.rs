use musical_bindings::binding::{budget_message, sandbox, Binding};
use musical_bindings::repeat_timer::RepeatTimer;
use std::time::{Duration, Instant};

#[test]
fn timer_fires_after_interval() {
    let t0 = Instant::now();
    let mut t = RepeatTimer::starting_at(1_000, t0);
    assert!(!t.is_due(999));
    assert!(t.is_due(1_000));
    assert!(!t.advance(t0, 500));
    assert!(t.advance(t0, 1_500));
}

#[test]
fn timer_new_does_not_fire_at_once() {
    let mut t = RepeatTimer::new(Duration::from_secs(3600));
    assert!(!t.tick());
}

#[test]
fn timer_with_zero_interval_always_fires() {
    let mut t = RepeatTimer::new(Duration::from_secs(0));
    assert!(t.tick());
    assert!(t.tick());
}

#[test]
fn load_valid_script() {
    let src = b"input_mode = 'keyboard'\nfunction process() keys_down('a') end\nfunction accepts(t) return true end\n";
    let b = Binding::from_bytes(src, "piano.lua").ok().unwrap();
    assert_eq!(b.name(), "piano.lua");
    assert!(!b.guard.accepts());
    assert_eq!(b.guard.window(), 0);
}

#[test]
fn load_syntax_error_fails() {
    let e = Binding::from_bytes(b"function process(", "bad.lua").err().unwrap();
    assert!(e.message.contains("syntax error"));
}

#[test]
fn load_runtime_error_fails() {
    let e = Binding::from_bytes(b"error('nope')", "bad.lua").err().unwrap();
    assert!(e.message.contains("nope"));
}

#[test]
fn loading_twice_gives_independent_bindings() {
    let src = b"counter = 0\nfunction process() counter = counter + 1 end";
    let a = Binding::from_bytes(src, "x.lua").ok().unwrap();
    let b = Binding::from_bytes(src, "x.lua").ok().unwrap();
    assert_eq!(a.name(), "x.lua");
    assert_eq!(a.name(), b.name());
    assert_eq!(a.guard.accepts(), b.guard.accepts());
    assert_eq!(a.guard.window(), b.guard.window());

    let process_a: mlua::Function = a.lua.globals().get("process").unwrap();
    process_a.call::<_, ()>(()).unwrap();
    process_a.call::<_, ()>(()).unwrap();
    let count_a: i64 = a.lua.globals().get("counter").unwrap();
    let count_b: i64 = b.lua.globals().get("counter").unwrap();
    assert_eq!(count_a, 2);
    assert_eq!(count_b, 0);

    let process_b: mlua::Function = b.lua.globals().get("process").unwrap();
    process_b.call::<_, ()>(()).unwrap();
    let count_b: i64 = b.lua.globals().get("counter").unwrap();
    assert_eq!(count_b, 1);
}

#[test]
fn load_refuses_precompiled_bytecode() {
    let mut bytes = b"\x1bLua".to_vec();
    bytes.extend_from_slice(&[0x54, 0x00, 0x19, 0x93, 0x0d, 0x0a, 0x1a, 0x0a, 0xff, 0xff]);
    let e = Binding::from_bytes(&bytes, "compiled.lua").err().unwrap();
    assert!(e.message.contains("binary chunk"));
}

#[test]
fn timer_with_interval_nanos() {
    let mut t = RepeatTimer::with_interval_nanos(0);
    assert!(t.tick());
    let mut t = RepeatTimer::with_interval_nanos(3_600_000_000_000);
    assert!(!t.tick());
}

#[test]
fn sandbox_has_no_os_io_or_package() {
    let e = Binding::from_bytes(b"os.exit(1)", "exit.lua").err().unwrap();
    assert!(e.message.contains("os"));
    assert!(Binding::from_bytes(b"io.write('x')", "io.lua").is_err());
    assert!(Binding::from_bytes(b"require('x')", "pkg.lua").is_err());
    let ok = Binding::from_bytes(b"x = math.floor(2.5) .. string.upper('a') .. #table.pack(1, 2)", "libs.lua");
    assert!(ok.is_ok());
}

#[test]
fn load_into_prepared_interpreter() {
    let lua = sandbox().ok().unwrap();
    lua.globals().set("preset", 4).unwrap();
    let b = Binding::load_into(lua, b"doubled = preset * 2", "prep.lua").ok().unwrap();
    assert_eq!(b.name(), "prep.lua");
    let doubled: i64 = b.lua.globals().get("doubled").unwrap();
    assert_eq!(doubled, 8);
}

#[test]
fn budget_message_text() {
    assert_eq!(budget_message(), "script exceeded its instruction budget");
}
