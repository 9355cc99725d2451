use pacman_rs::input::{InputButton, InputState, InputSystem};
use pacman_rs::memory::MemoryBus;
use pacman_rs::video::VideoSystem;
use pacman_rs::PacmanEmulator;

#[test]
fn new_input_state_is_released() {
    let s = InputState::new();
    assert!(!s.up && !s.down && !s.left && !s.right && !s.start_1p && !s.start_2p && !s.coin);
}

#[test]
fn pressed_only_on_the_edge() {
    let mut input = InputSystem::new();
    let mut s = InputState::new();
    s.coin = true;
    input.update(s);
    assert!(input.pressed(InputButton::Coin));
    assert!(!input.pressed(InputButton::Up));
    input.update(s);
    assert!(!input.pressed(InputButton::Coin));
    assert!(input.state().coin);
    input.reset();
    assert!(!input.state().coin);
}

#[test]
fn each_button_maps_to_its_field() {
    let buttons = [
        InputButton::Up,
        InputButton::Down,
        InputButton::Left,
        InputButton::Right,
        InputButton::Start1P,
        InputButton::Start2P,
        InputButton::Coin,
    ];
    for (i, b) in buttons.iter().enumerate() {
        let mut s = InputState::new();
        match i {
            0 => s.up = true,
            1 => s.down = true,
            2 => s.left = true,
            3 => s.right = true,
            4 => s.start_1p = true,
            5 => s.start_2p = true,
            _ => s.coin = true,
        }
        let mut input = InputSystem::new();
        input.update(s);
        for (j, other) in buttons.iter().enumerate() {
            assert_eq!(input.pressed(*other), i == j);
        }
        let _ = b;
    }
}

#[test]
fn framebuffer_is_black_and_kept_by_render() {
    let mut video = VideoSystem::new();
    assert_eq!(video.framebuffer().len(), 224 * 288 * 4);
    let mut bus = MemoryBus::new();
    bus.write(0x4000, 0x41);
    video.render_frame(&bus);
    assert!(video.framebuffer().iter().all(|&b| b == 0));
    video.reset();
    assert_eq!(video.framebuffer().len(), 224 * 288 * 4);
}

#[test]
fn port_bytes_are_active_low() {
    let mut s = InputState::new();
    assert_eq!((s.port0(), s.port1()), (0xFF, 0xFF));
    s.up = true;
    s.coin = true;
    s.start_2p = true;
    assert_eq!(s.port0(), 0xDE);
    assert_eq!(s.port1(), 0xBF);
    s.left = true;
    s.right = true;
    s.down = true;
    s.start_1p = true;
    assert_eq!(s.port0(), 0xD0);
    assert_eq!(s.port1(), 0x9F);
}

#[test]
fn program_reads_controls_from_the_io_window() {
    let mut emu = PacmanEmulator::new();
    // LD A,(0x5000) ; LD B,A ; LD A,(0x5040)
    emu.memory.load_image(&[0x3A, 0x00, 0x50, 0x47, 0x3A, 0x40, 0x50]).unwrap();
    let mut s = InputState::new();
    s.coin = true;
    s.start_1p = true;
    emu.update_input(s);
    assert!(emu.input.pressed(InputButton::Coin));
    for _ in 0..3 {
        emu.cpu.step(&mut emu.memory).unwrap();
    }
    assert_eq!(emu.cpu.b, 0xDF);
    assert_eq!(emu.cpu.a, 0xDF);
    emu.reset();
    assert_eq!(emu.memory.read(0x5000), 0xFF);
    assert_eq!(emu.memory.read(0x5040), 0xFF);
}

#[test]
fn new_board_is_blank_and_released() {
    let emu = PacmanEmulator::new();
    assert!(emu.video.framebuffer().iter().all(|&b| b == 0));
    assert!(!emu.input.state().coin && !emu.input.state().up);
    assert_eq!(emu.memory.read(0x5000), 0xFF);
    assert_eq!(emu.memory.read(0x5080), 0xFF);
    assert!(emu.memory.io_latch().iter().all(|&b| b == 0));
}

#[test]
fn reset_releases_controls_and_keeps_display_blank() {
    let mut emu = PacmanEmulator::new();
    let mut s = InputState::new();
    s.down = true;
    emu.update_input(s);
    emu.update_input(s);
    emu.reset();
    assert!(!emu.input.state().down);
    assert!(!emu.input.pressed(InputButton::Down));
    assert_eq!(emu.video.framebuffer().len(), 224 * 288 * 4);
    assert!(emu.video.framebuffer().iter().all(|&b| b == 0));
}
