use whimpr::ipc::{
    Binding, BindingId, Capabilities, PasteOptions, PasteRung, RecordModeWire, ShellToSidecar,
    PROTOCOL_VERSION,
};
use whimpr::types::{RecordMode, SessionId};

#[test]
fn paste_options_default_is_privacy_preserving() {
    let d = PasteOptions::default();
    assert!(d.concealed, "dictated text must stay out of clipboard history by default");
    assert!(d.restore_clipboard);
}

#[test]
fn paste_options_default_prefers_accessibility_without_overrides() {
    let d = PasteOptions::default();
    assert!(d.prefer_ax);
    assert_eq!(d.chunk_size, None);
    assert_eq!(d.method_override, None);
}

#[test]
fn protocol_version_is_one() {
    assert_eq!(PROTOCOL_VERSION, 1);
}

#[test]
fn record_mode_converts_to_wire_and_back() {
    assert_eq!(RecordModeWire::from(RecordMode::PushToTalk), RecordModeWire::PushToTalk);
    assert_eq!(RecordModeWire::from(RecordMode::Locked), RecordModeWire::Locked);
    assert_eq!(RecordMode::from(RecordModeWire::PushToTalk), RecordMode::PushToTalk);
    assert_eq!(RecordMode::from(RecordModeWire::Locked), RecordMode::Locked);
    for m in [RecordMode::PushToTalk, RecordMode::Locked] {
        assert_eq!(RecordMode::from(RecordModeWire::from(m)), m);
    }
    for w in [RecordModeWire::PushToTalk, RecordModeWire::Locked] {
        assert_eq!(RecordModeWire::from(RecordMode::from(w)), w);
    }
}

#[test]
fn messages_carry_their_fields() {
    let b = Binding { id: BindingId::HandsFree, keys: vec![0x11, 0x5B], is_modifier_only: true };
    let m = ShellToSidecar::UpdateShortcuts { bindings: vec![b.clone()] };
    assert_eq!(m.clone(), ShellToSidecar::UpdateShortcuts { bindings: vec![b] });
    let p = ShellToSidecar::PasteText {
        text: "hello".to_string(),
        opts: PasteOptions { method_override: Some(PasteRung::ShiftInsert), ..PasteOptions::default() },
    };
    assert_ne!(p, ShellToSidecar::Ping { seq: 1 });
    let caps = Capabilities { hook_ready: true, context_read: false, secure_detect: true };
    assert_eq!(caps.clone(), caps);
    assert_eq!(SessionId(7), SessionId(7));
    assert_ne!(SessionId(7), SessionId(8));
}
