use egui_fbink::color::Rgb;
use egui_fbink::device::{Command, DeviceProbe};
use egui_fbink::fbink::FBInkBackend;
use egui_fbink::geometry::{Area, DamageRect, Pos};
use egui_fbink::raster::{
    path_fits, rect_fits, Stroke, COORD_LIMIT, LINE_REACH, SEGMENT_LIMIT, STROKE_LIMIT,
};
use egui_fbink::shapes::{PathShape, RectShape};

const INK: Rgb = Rgb { r: 10, g: 20, b: 30 };
const PAPER: Rgb = Rgb { r: 200, g: 210, b: 220 };

fn panel(width: u32, height: u32) -> FBInkBackend {
    let probe =
        DeviceProbe { screen_width: width, screen_height: height, device_name: [0; 32], has_color: true };
    let mut fb = FBInkBackend::new(3, 0, probe, &Vec::new()).unwrap();
    fb.take_commands();
    fb
}

struct Dice(u64);

impl Dice {
    fn roll(&mut self, sides: u32) -> u32 {
        self.0 = self.0.wrapping_mul(6364136223846793005).wrapping_add(1442695040888963407);
        ((self.0 >> 33) % sides as u64) as u32
    }
}

fn moved(region: &DamageRect, dx: u16, dy: u16) -> DamageRect {
    DamageRect::new(region.left + dx, region.top + dy, region.width, region.height)
}

fn shifted(commands: &[Command], dx: u16, dy: u16) -> Vec<Command> {
    commands
        .iter()
        .map(|c| match c {
            Command::PutPixel { x, y, color } => {
                Command::PutPixel { x: x + dx, y: y + dy, color: *color }
            }
            Command::FillRect { region, color } => {
                Command::FillRect { region: moved(region, dx, dy), color: *color }
            }
            Command::Refresh { region } => Command::Refresh { region: moved(region, dx, dy) },
            other => other.clone(),
        })
        .collect()
}

fn path_commands(points: Vec<Pos>, width: u32) -> Vec<Command> {
    let mut fb = panel(16384, 16384);
    fb.draw_paths(PathShape { points, fill: PAPER, stroke: Stroke { width, color: INK } });
    fb.commands
}

fn rect_commands(rect: Area, rounding: u32, width: u32) -> Vec<Command> {
    let mut fb = panel(16384, 16384);
    fb.draw_rect(RectShape { rect, rounding, fill: PAPER, stroke: Stroke { width, color: INK } });
    fb.commands
}

#[test]
fn the_limits_of_the_rasterizer() {
    assert_eq!(COORD_LIMIT, 8192);
    assert_eq!(STROKE_LIMIT, 16);
    assert_eq!(SEGMENT_LIMIT, 128);
    assert_eq!(LINE_REACH, 46_000);
}

#[test]
fn a_rect_fits_up_to_the_limits() {
    let stroke = Stroke { width: 16, color: INK };
    assert!(rect_fits(&Area::new(-8192, 8192, 8192, 8192), 8192, &stroke));
    assert!(!rect_fits(&Area::new(-8193, 0, 1, 1), 0, &stroke));
    assert!(!rect_fits(&Area::new(0, 8193, 1, 1), 0, &stroke));
    assert!(!rect_fits(&Area::new(0, 0, 8193, 1), 0, &stroke));
    assert!(!rect_fits(&Area::new(0, 0, 1, 8193), 0, &stroke));
    assert!(!rect_fits(&Area::new(0, 0, 1, 1), 8193, &stroke));
    assert!(!rect_fits(&Area::new(0, 0, 1, 1), 0, &Stroke { width: 17, color: INK }));
}

#[test]
fn a_path_fits_up_to_the_limits() {
    let stroke = Stroke { width: 16, color: INK };
    assert!(path_fits(&vec![], &stroke));
    assert!(path_fits(&vec![Pos::new(8192, -8192)], &stroke));
    assert!(path_fits(&vec![Pos::new(0, 0), Pos::new(128, -128), Pos::new(0, 0)], &stroke));
    assert!(!path_fits(&vec![Pos::new(0, 0), Pos::new(129, 0), Pos::new(0, 0)], &stroke));
    assert!(!path_fits(&vec![Pos::new(0, 0), Pos::new(0, -129), Pos::new(0, 0)], &stroke));
    assert!(!path_fits(&vec![Pos::new(0, 0), Pos::new(1, 1), Pos::new(-128, 1)], &stroke));
    assert!(!path_fits(&vec![Pos::new(8193, 0)], &stroke));
    assert!(!path_fits(&vec![Pos::new(0, 0), Pos::new(0, -8193)], &stroke));
    assert!(!path_fits(&vec![Pos::new(0, 0)], &Stroke { width: 17, color: INK }));
}

#[test]
fn a_single_line_fits_by_its_length_and_width() {
    let wide = |width| Stroke { width, color: INK };
    // Width 16: fifty times the length.
    assert!(path_fits(&vec![Pos::new(0, 0), Pos::new(920, -920)], &wide(16)));
    assert!(!path_fits(&vec![Pos::new(0, 0), Pos::new(921, 0)], &wide(16)));
    assert!(!path_fits(&vec![Pos::new(0, 921), Pos::new(0, 0)], &wide(16)));
    // Width 1: five times the length.
    assert!(path_fits(&vec![Pos::new(-1000, 0), Pos::new(8192, 0)], &wide(1)));
    assert!(path_fits(&vec![Pos::new(-8192, 8192), Pos::new(1008, -1008)], &wide(1)));
    assert!(!path_fits(&vec![Pos::new(-8192, 0), Pos::new(1009, 0)], &wide(1)));
    // Width 0: any line within the coordinate limit.
    assert!(path_fits(&vec![Pos::new(-8192, -8192), Pos::new(8192, 8192)], &wide(0)));
}

#[test]
fn a_single_line_is_drawn_the_same_wherever_it_lies() {
    let mut dice = Dice(23);
    for _ in 0..60 {
        let width = 1 + dice.roll(16);
        let reach = 46_000 / (3 * width + 2);
        let reach = reach.min(1500);
        let from = Pos::new(1600, 1600);
        let to = Pos::new(
            1600 + dice.roll(2 * reach + 1) as i32 - reach as i32,
            1600 + dice.roll(2 * reach + 1) as i32 - reach as i32,
        );
        let (dx, dy) = (dice.roll(5000) as u16, dice.roll(5000) as u16);
        let near = path_commands(vec![from, to], width);
        let far = path_commands(
            vec![
                Pos::new(from.x + dx as i32, from.y + dy as i32),
                Pos::new(to.x + dx as i32, to.y + dy as i32),
            ],
            width,
        );
        if from != to {
            assert!(matches!(near.last(), Some(Command::Refresh { .. })));
        }
        assert_eq!(shifted(&near, dx, dy), far);
    }
}

#[test]
fn a_path_is_drawn_the_same_wherever_it_lies() {
    let mut dice = Dice(7);
    for _ in 0..300 {
        let count = 2 + dice.roll(4);
        let width = 1 + dice.roll(16);
        let mut at = Pos::new(500 + dice.roll(100) as i32, 500 + dice.roll(100) as i32);
        let mut here = vec![at];
        for _ in 1..count {
            at = Pos::new(at.x + dice.roll(257) as i32 - 128, at.y + dice.roll(257) as i32 - 128);
            here.push(at);
        }
        let (dx, dy) = (dice.roll(7000) as u16, dice.roll(7000) as u16);
        let there: Vec<Pos> =
            here.iter().map(|p| Pos::new(p.x + dx as i32, p.y + dy as i32)).collect();
        let collapsed = here.iter().all(|p| *p == here[0]);
        let near = path_commands(here, width);
        let far = path_commands(there, width);
        assert!(collapsed || matches!(near.last(), Some(Command::Refresh { .. })));
        assert_eq!(shifted(&near, dx, dy), far);
    }
}

#[test]
fn a_rect_is_drawn_the_same_wherever_it_lies() {
    let mut dice = Dice(11);
    for _ in 0..100 {
        let rect = Area::new(
            40 + dice.roll(50) as i32,
            40 + dice.roll(50) as i32,
            1 + dice.roll(60),
            1 + dice.roll(60),
        );
        let rounding = 1 + dice.roll(40);
        let width = dice.roll(17);
        let (dx, dy) = (dice.roll(8000) as u16, dice.roll(8000) as u16);
        let near = rect_commands(rect, rounding, width);
        let far = rect_commands(
            Area::new(rect.left + dx as i32, rect.top + dy as i32, rect.width, rect.height),
            rounding,
            width,
        );
        assert_eq!(
            near.last(),
            Some(&Command::Refresh {
                region: DamageRect::new(
                    rect.left as u16,
                    rect.top as u16,
                    rect.width as u16,
                    rect.height as u16
                )
            })
        );
        assert_eq!(shifted(&near, dx, dy), far);
    }
}

#[test]
fn an_outline_lies_around_the_inside() {
    let commands = rect_commands(Area::new(10, 10, 20, 12), 3, 2);
    let mut ink = 0;
    let mut paper = 0;
    for c in &commands {
        if let Command::PutPixel { x, y, color } = c {
            // The outline is centred on the bounds: it reaches one pixel out.
            assert!((9..31).contains(x) && (9..23).contains(y));
            if *color == INK {
                ink += 1;
                assert!(!((12..28).contains(x) && (12..20).contains(y)));
            } else {
                assert_eq!(*color, PAPER);
                paper += 1;
                assert!((11..29).contains(x) && (11..21).contains(y));
            }
        }
    }
    assert!(ink > 0 && paper > 0);
}
