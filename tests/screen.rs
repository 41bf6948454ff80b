use chip8::cpu::DrawInstruction;
use chip8::math::{point, Point};
use chip8::screen::Screen;

fn lit(screen: &Screen) -> usize {
    let mut n = 0;
    for x in 0..64 {
        for y in 0..32 {
            if screen.is_on(x, y) {
                n += 1;
            }
        }
    }
    n
}

#[test]
fn new_screen_is_blank() {
    let screen = Screen::new();
    assert_eq!(lit(&screen), 0);
    Screen::update();
}

#[test]
fn toggling_twice_turns_off() {
    let mut screen = Screen::new();
    screen.update_pixel(point(3, 4));
    assert!(screen.is_on(3, 4));
    assert!(!screen.is_on(4, 3));
    screen.update_pixel(point(3, 4));
    assert!(!screen.is_on(3, 4));
}

#[test]
fn off_grid_points_change_nothing() {
    let mut screen = Screen::new();
    screen.update_pixel(point(64, 0));
    screen.update_pixel(point(0, 32));
    assert_eq!(lit(&screen), 0);
}

#[test]
fn apply_sprite_then_clear() {
    let mut screen = Screen::new();
    let points: Vec<Point> = vec![point(0, 0), point(63, 31), point(0, 0), point(5, 6)];
    screen.apply(&DrawInstruction::Sprite(points));
    assert!(!screen.is_on(0, 0));
    assert!(screen.is_on(63, 31));
    assert!(screen.is_on(5, 6));
    assert_eq!(lit(&screen), 2);
    screen.apply(&DrawInstruction::SinglePixel(point(1, 1)));
    assert!(screen.is_on(1, 1));
    screen.apply(&DrawInstruction::Unchanged);
    assert_eq!(lit(&screen), 3);
    screen.apply(&DrawInstruction::Clear);
    assert_eq!(lit(&screen), 0);
}

#[test]
fn point_constructors_agree() {
    assert_eq!(Point::new(7, 9), point(7, 9));
    assert_eq!(point(7, 9).x, 7);
    assert_eq!(point(7, 9).y, 9);
}
