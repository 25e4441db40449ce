use pqwindow::codes::{InvalidCode, ReturnCode};
use pqwindow::config::{
    default_fps, default_multisampling, default_title, default_visibility, default_vsync,
    DisplayConfig, Tuple,
};

#[test]
fn decode_known_codes() {
    assert_eq!(ReturnCode::decode(0), Ok(ReturnCode::Exit));
    assert_eq!(ReturnCode::decode(1), Ok(ReturnCode::POLL));
    assert_eq!(ReturnCode::decode(2), Ok(ReturnCode::WAIT));
}

#[test]
fn decode_refuses_other_codes() {
    for code in [3u32, 4, 17, 255, 1000, u32::MAX] {
        assert_eq!(ReturnCode::decode(code), Err(InvalidCode { code }));
    }
}

#[test]
fn code_round_trip() {
    for rc in [ReturnCode::Exit, ReturnCode::POLL, ReturnCode::WAIT] {
        assert_eq!(ReturnCode::decode(rc.code()), Ok(rc));
    }
    assert_eq!(ReturnCode::WAIT.code(), 2);
}

#[test]
fn tuple_conversions() {
    let t = Tuple::from((1024u32, 768u32));
    assert_eq!(t, Tuple { v1: 1024, v2: 768 });
    let p: (u32, u32) = t.into();
    assert_eq!(p, (1024, 768));
}

#[test]
fn default_configuration() {
    let c = DisplayConfig::default();
    assert_eq!(c.title.as_deref(), Some("default_title"));
    assert_eq!(c.icon, "");
    assert_eq!(c.fullscreen, 0);
    assert_eq!(c.vsync, 0);
    assert_eq!(c.multisampling, 1);
    assert_eq!(c.visibility, 1);
    assert_eq!(c.fps, 60);
    let size = Tuple { v1: 800, v2: 600 };
    assert_eq!(c.dimensions, size);
    assert_eq!(c.min_dimensions, size);
    assert_eq!(c.max_dimensions, size);
}

#[test]
fn default_values() {
    assert_eq!(default_title(), "default_title");
    assert_eq!(default_vsync(), 0);
    assert_eq!(default_multisampling(), 1);
    assert_eq!(default_visibility(), 1);
    assert_eq!(default_fps(), 60);
}
