use rgb::cartridge::CartridgeKind;
use rgb::frontend::audio::{AudioSink, SilentSink};
use rgb::frontend::input::{map_key, HostKey};
use rgb::frontend::palette::{classic_green, grayscale};
use rgb::frontend::renderer::shade_to_rgba;
use rgb::frontend::scaling::fit_scale;
use rgb::frontend::session::{EmulatorSession, KeyOutcome};
use rgb::frontend::window_title;
use rgb::input::Button;

fn rom_image(title: &str, cartridge_type: u8, ram_size_code: u8) -> Vec<u8> {
    let mut bytes = vec![0; 0x8000];
    bytes[0x134..0x134 + title.len()].copy_from_slice(title.as_bytes());
    bytes[0x147] = cartridge_type;
    bytes[0x149] = ram_size_code;
    bytes
}

#[test]
fn palettes_map_the_low_two_bits_of_a_shade() {
    let green = classic_green();
    assert_eq!(green.rgba(0), [0xE0, 0xF8, 0xD0, 0xFF]);
    assert_eq!(green.rgba(3), [0x08, 0x18, 0x20, 0xFF]);
    assert_eq!(green.rgba(7), green.rgba(3));
    let gray = grayscale();
    assert_eq!(gray.rgba(1), [0xAA, 0xAA, 0xAA, 0xFF]);
    assert_eq!(gray.rgba(2), [0x55, 0x55, 0x55, 0xFF]);
}

#[test]
fn shades_become_four_rgba_bytes_each() {
    let shades = [0u8, 3, 1];
    let mut rgba = [0x11u8; 16];
    shade_to_rgba(&shades, &grayscale(), &mut rgba);
    assert_eq!(
        rgba,
        [
            0xFF, 0xFF, 0xFF, 0xFF, 0x00, 0x00, 0x00, 0xFF, 0xAA, 0xAA, 0xAA, 0xFF, 0x11, 0x11, 0x11,
            0x11
        ]
    );
}

#[test]
fn fit_scale_picks_the_largest_integer_scale_that_fits() {
    assert_eq!(fit_scale(640, 576), 4);
    assert_eq!(fit_scale(800, 600), 4);
    assert_eq!(fit_scale(1920, 400), 2);
    assert_eq!(fit_scale(100, 100), 1);
    assert_eq!(fit_scale(0, 0), 1);
}

#[test]
fn keys_map_to_the_dmg_layout() {
    assert_eq!(map_key(HostKey::ArrowRight), Some(Button::Right));
    assert_eq!(map_key(HostKey::ArrowLeft), Some(Button::Left));
    assert_eq!(map_key(HostKey::ArrowUp), Some(Button::Up));
    assert_eq!(map_key(HostKey::ArrowDown), Some(Button::Down));
    assert_eq!(map_key(HostKey::KeyZ), Some(Button::B));
    assert_eq!(map_key(HostKey::KeyX), Some(Button::A));
    assert_eq!(map_key(HostKey::Enter), Some(Button::Start));
    assert_eq!(map_key(HostKey::ShiftRight), Some(Button::Select));
    assert_eq!(map_key(HostKey::Escape), None);
    assert_eq!(map_key(HostKey::Other), None);
}

#[test]
fn window_titles_name_the_game() {
    assert_eq!(window_title(""), "rgb");
    assert_eq!(window_title("TETRIS"), "rgb — TETRIS");
}

#[test]
fn the_silent_sink_accepts_anything() {
    let mut sink = SilentSink;
    sink.push_samples(&[0, 480, -480]);
}

#[test]
fn a_session_runs_frames_and_quits_on_escape() {
    let cart = CartridgeKind::from_bytes(rom_image("SESSION", 0x03, 0x02)).unwrap();
    let mut save = vec![0u8; 0x2000];
    save[3] = 0x44;
    let mut session = EmulatorSession::new(cart, None, Some(save));
    let mut sink = SilentSink;
    let mut rgba = vec![0u8; 160 * 144 * 4];
    session.run_frame(&mut sink, &mut rgba);
    assert!(rgba.chunks(4).all(|px| px[3] == 0xFF));
    assert!(matches!(session.handle_key(HostKey::KeyX, true), KeyOutcome::Continue));
    assert!(matches!(session.handle_key(HostKey::KeyX, false), KeyOutcome::Continue));
    assert!(matches!(session.handle_key(HostKey::Escape, false), KeyOutcome::Continue));
    match session.handle_key(HostKey::Escape, true) {
        KeyOutcome::Quit(result) => {
            let data = result.save_data.expect("battery RAM");
            assert_eq!(data.len(), 0x2000);
            assert_eq!(data[3], 0x44);
        }
        KeyOutcome::Continue => panic!("expected quit"),
    }
}
