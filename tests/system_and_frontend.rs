use emulator::cpu::CPU;
use emulator::dummy_frontend::DummyFrontend;
use emulator::frontend::{
    apply_event, frame_commands, CanvasCommand, Event, Frontend, ICanvas, IEventFetcher, Key,
};
use emulator::ram::RAM;
use emulator::system::System;
use emulator::web_keys::{key_from_uppercase, parse_js_key};

#[test]
fn key_down_then_frame_sets_player_one_bit() {
    let mut system = System::new(&[0xC3, 0x00, 0x00], DummyFrontend::new());
    system.notify(Event::KeyDown(Key::Player1Shoot));
    assert!(system.render_next_frame().is_ok());
    assert_eq!(system.cpu().in1, 0b0001_0000);
    assert_eq!(system.cpu().in2, 0);
    system.notify(Event::KeyUp(Key::Player1Shoot));
    assert!(system.render_next_frame().is_ok());
    assert_eq!(system.cpu().in1, 0);
    assert_eq!(system.cpu().in2, 0);
}

#[test]
fn key_down_for_player_two_sets_second_latch() {
    let mut system = System::new(&[0xC3, 0x00, 0x00], DummyFrontend::new());
    system.notify(Event::KeyDown(Key::Player2Left));
    system.notify(Event::KeyDown(Key::InsertCoin));
    assert!(system.render_next_frame().is_ok());
    assert_eq!(system.cpu().in1, 0b0000_0001);
    assert_eq!(system.cpu().in2, 0b0010_0000);
}

#[test]
fn keys_map_to_latch_bits() {
    let keys = [
        (Key::InsertCoin, 1, 0),
        (Key::SelectOnePlayer, 1, 2),
        (Key::SelectTwoPlayers, 1, 1),
        (Key::Player1Shoot, 1, 4),
        (Key::Player1Left, 1, 5),
        (Key::Player1Right, 1, 6),
        (Key::Player2Shoot, 2, 4),
        (Key::Player2Left, 2, 5),
        (Key::Player2Right, 2, 6),
    ];
    for (key, player, code) in keys {
        assert_eq!(key.player(), player);
        assert_eq!(key.code(), code);
        assert_eq!(key.mask(), 1u8 << code);
        let (mut cpu, _env) = CPU::new(&[]);
        cpu.in1 = 0x80;
        cpu.in2 = 0x80;
        apply_event(&mut cpu, Event::KeyDown(key));
        let expected = 0x80 | (1u8 << code);
        if player == 1 {
            assert_eq!((cpu.in1, cpu.in2), (expected, 0x80));
        } else {
            assert_eq!((cpu.in1, cpu.in2), (0x80, expected));
        }
        apply_event(&mut cpu, Event::KeyUp(key));
        assert_eq!((cpu.in1, cpu.in2), (0x80, 0x80));
    }
}

struct RecordingCanvas {
    commands: Vec<CanvasCommand>,
    presented: usize,
    fail: bool,
}

impl ICanvas for RecordingCanvas {
    fn clear(&mut self) {
        self.commands.push(CanvasCommand::Clear);
    }

    fn set_draw_color(&mut self, r: u8, g: u8, b: u8) {
        self.commands.push(CanvasCommand::SetDrawColor(r, g, b));
    }

    fn fill_rect(&mut self, x: i32, y: i32, width: u32, height: u32) {
        self.commands.push(CanvasCommand::FillRect(x, y, width, height));
    }

    fn present(&mut self) -> Result<(), String> {
        self.presented += 1;
        if self.fail {
            Err(String::from("window closed"))
        } else {
            Ok(())
        }
    }
}

struct QueuedEvents {
    events: Vec<Event>,
}

impl IEventFetcher for QueuedEvents {
    fn fetch_events(&mut self) -> Vec<Event> {
        std::mem::take(&mut self.events)
    }
}

#[test]
fn frame_commands_of_blank_screen() {
    let ram = RAM::new(&[]);
    let commands = frame_commands(&ram);
    assert_eq!(commands, vec![CanvasCommand::SetDrawColor(0, 0, 0), CanvasCommand::Clear]);
}

#[test]
fn frame_commands_of_lit_pixels() {
    let mut ram = RAM::new(&[]);
    ram.write(0x2400, 0b0000_0001);
    ram.write(0x2400 + 32 + 26, 0b1000_0000);
    ram.write(0x3FFF, 0b0001_0000);
    let commands = frame_commands(&ram);
    assert_eq!(
        commands,
        vec![
            CanvasCommand::SetDrawColor(0, 0, 0),
            CanvasCommand::Clear,
            CanvasCommand::SetDrawColor(0, 0xFF, 0),
            CanvasCommand::FillRect(0, 768, 3, 3),
            CanvasCommand::SetDrawColor(0xFF, 0, 0),
            CanvasCommand::FillRect(3, (256 - 208 - 7) * 3, 3, 3),
            CanvasCommand::SetDrawColor(0xFF, 0xFF, 0xFF),
            CanvasCommand::FillRect(223 * 3, (256 - 248 - 4) * 3, 3, 3),
        ]
    );
}

#[test]
fn render_frame_draws_and_presents() {
    let canvas = RecordingCanvas { commands: Vec::new(), presented: 0, fail: false };
    let mut frontend = Frontend::new(canvas, QueuedEvents { events: Vec::new() });
    let mut ram = RAM::new(&[]);
    ram.write(0x2400 + 12, 0b0000_0010);
    assert!(frontend.render_frame(&ram).is_ok());
    assert_eq!(frontend.canvas.presented, 1);
    assert_eq!(
        frontend.canvas.commands,
        vec![
            CanvasCommand::SetDrawColor(0, 0, 0),
            CanvasCommand::Clear,
            CanvasCommand::SetDrawColor(0xFF, 0xFF, 0xFF),
            CanvasCommand::FillRect(0, (256 - 96 - 1) * 3, 3, 3),
        ]
    );
}

#[test]
fn failed_present_stops_the_frame() {
    let canvas = RecordingCanvas { commands: Vec::new(), presented: 0, fail: true };
    let fetcher = QueuedEvents { events: vec![Event::KeyDown(Key::Player1Left)] };
    let mut system = System::new(&[0xC3, 0x00, 0x00], Frontend::new(canvas, fetcher));
    system.notify(Event::KeyDown(Key::Player1Right));
    assert_eq!(system.render_next_frame(), Err(String::from("window closed")));
    assert_eq!(system.cpu().in1, 0);
    assert_eq!(system.cpu().program_counter, 0x103F);
}

#[test]
fn handle_events_applies_buffered_then_fetched() {
    let canvas = RecordingCanvas { commands: Vec::new(), presented: 0, fail: false };
    let fetcher = QueuedEvents {
        events: vec![Event::KeyUp(Key::Player1Shoot), Event::KeyDown(Key::Player2Shoot)],
    };
    let mut frontend = Frontend::new(canvas, fetcher);
    frontend.notify(Event::KeyDown(Key::Player1Shoot));
    frontend.notify(Event::KeyDown(Key::Player1Left));
    let (mut cpu, _env) = CPU::new(&[]);
    frontend.handle_events(&mut cpu);
    assert_eq!(cpu.in1, 0b0010_0000);
    assert_eq!(cpu.in2, 0b0001_0000);
    frontend.handle_events(&mut cpu);
    assert_eq!(cpu.in1, 0b0010_0000);
    assert_eq!(cpu.in2, 0b0001_0000);
}

#[test]
fn browser_key_names() {
    assert_eq!(parse_js_key(String::from("c")), Some(Key::InsertCoin));
    assert_eq!(parse_js_key(String::from("C")), Some(Key::InsertCoin));
    assert_eq!(parse_js_key(String::from("1")), Some(Key::SelectOnePlayer));
    assert_eq!(parse_js_key(String::from("2")), Some(Key::SelectTwoPlayers));
    assert_eq!(parse_js_key(String::from("ArrowLeft")), Some(Key::Player1Left));
    assert_eq!(parse_js_key(String::from("ArrowRight")), Some(Key::Player1Right));
    assert_eq!(parse_js_key(String::from(" ")), Some(Key::Player1Shoot));
    assert_eq!(parse_js_key(String::from("a")), Some(Key::Player2Left));
    assert_eq!(parse_js_key(String::from("d")), Some(Key::Player2Right));
    assert_eq!(parse_js_key(String::from("s")), Some(Key::Player2Shoot));
    assert_eq!(parse_js_key(String::from("x")), None);
    assert_eq!(parse_js_key(String::from("Enter")), None);
}

#[test]
fn upper_case_key_names() {
    assert_eq!(key_from_uppercase(&String::from("ARROWLEFT")), Some(Key::Player1Left));
    assert_eq!(key_from_uppercase(&String::from("arrowleft")), None);
    assert_eq!(key_from_uppercase(&String::from("S")), Some(Key::Player2Shoot));
}
