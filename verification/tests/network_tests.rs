use learning_rust::echo_protocol::{line_reply, simple_echo, DatagramCounter, WELCOME};

#[test]
fn line_session_replies() {
    let r = line_reply("hello");
    assert_eq!(r.reply, "回显: hello\n");
    assert!(!r.close);
    let q = line_reply("  QuIt \r");
    assert_eq!(q.reply, "Goodbye!\n");
    assert!(q.close);
    assert!(!line_reply("quitting").close);
    assert!(WELCOME.contains("quit"));
}

#[test]
fn one_shot_echo() {
    assert_eq!(simple_echo("ping\n"), "服务器回显: ping\n");
}

#[test]
fn datagram_counter_stops_on_word() {
    let mut c = DatagramCounter { count: 0 };
    assert!(!c.on_datagram("Hello", "STOP"));
    assert!(!c.on_datagram("stop", "STOP"));
    assert!(c.on_datagram("STOP", "STOP"));
    assert_eq!(c.count, 3);
}
