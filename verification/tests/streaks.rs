use matrix_rain::cell::Cell;
use matrix_rain::line::Line;
use matrix_rain::matrix::Matrix;

fn is_ascii_alnum(b: u8) -> bool {
    b.is_ascii_alphanumeric()
}

#[test]
fn advance_is_linear_in_speed() {
    let mut l = Line::from_parts(4, 5, 700, 99);
    let y0 = l.y_milli;
    for _ in 0..12 {
        l.advance();
    }
    assert_eq!(l.y_milli, y0 + 12 * 700);
    assert_eq!(l.speed_milli, 700);
    assert_eq!(l.x, 4);
}

#[test]
fn fresh_streak_starts_fully_above_screen() {
    let l = Line::from_parts(10, 5, 1000, 1);
    assert_eq!(l.y_milli, -5000);
    assert!(l.in_bounds(80, 24));
    assert!(l.in_bounds(80, 0));
}

#[test]
fn fresh_streak_out_of_bounds_only_by_column() {
    let l = Line::from_parts(10, 5, 1000, 1);
    assert!(!l.in_bounds(10, 24));
    assert!(!l.in_bounds(0, 24));
    assert!(l.in_bounds(11, 24));
}

#[test]
fn spawned_streak_respects_width() {
    let mut rng = rand::rng();
    for _ in 0..50 {
        let l = Line::new(&mut rng, 1);
        assert_eq!(l.x, 0);
        assert!((3..=15).contains(&l.length));
        assert!((500..=1500).contains(&l.speed_milli));
        assert_eq!(l.y_milli, -1000 * l.length as i64);
        assert!(l.in_bounds(1, 24));
    }
}

#[test]
fn streak_past_bottom_is_dropped_and_paints_nothing() {
    let mut l = Line::from_parts(10, 5, 1000, 3);
    for _ in 0..30 {
        l.advance();
    }
    assert_eq!(l.y_milli, 25_000);
    assert!(!l.in_bounds(80, 24));

    let mut cells: Vec<Cell> = Vec::new();
    l.draw(&mut cells, 24);
    assert!(cells.is_empty());

    let mut m = Matrix::new();
    m.add_line(l);
    m.update(&mut cells, 80, 24);
    assert!(cells.is_empty());
    assert!(m.lines.is_empty());
}

#[test]
fn glyphs_are_stable_across_frames() {
    let mut l = Line::from_parts(0, 5, 1000, 42);
    for _ in 0..5 {
        l.advance();
    }
    let mut first: Vec<Cell> = Vec::new();
    l.draw(&mut first, 24);
    assert_eq!(first.len(), 5);

    l.advance();
    let mut second: Vec<Cell> = Vec::new();
    l.draw(&mut second, 24);
    assert_eq!(second.len(), 5);

    for p in 0..5 {
        assert_eq!(first[p].glyph, second[p].glyph);
        assert_eq!(first[p].row + 1, second[p].row);
    }
}

#[test]
fn glyphs_are_stable_across_screens() {
    let mut l = Line::from_parts(0, 8, 500, 7);
    for _ in 0..16 {
        l.advance();
    }
    let mut tall: Vec<Cell> = Vec::new();
    l.draw(&mut tall, 50);
    let mut short: Vec<Cell> = Vec::new();
    l.draw(&mut short, 4);
    assert_eq!(tall.len(), 8);
    assert_eq!(short.len(), 4);
    for p in 0..4 {
        assert_eq!(tall[p].glyph, short[p].glyph);
        assert_eq!(tall[p].row, short[p].row);
    }
}

#[test]
fn glyphs_are_ascii_alphanumeric() {
    let mut l = Line::from_parts(3, 15, 900, 123_456_789);
    for _ in 0..30 {
        l.advance();
    }
    let mut cells: Vec<Cell> = Vec::new();
    l.draw(&mut cells, 40);
    assert_eq!(cells.len(), 15);
    for c in &cells {
        assert!(is_ascii_alnum(c.glyph));
        assert_eq!(c.col, 3);
    }
}

#[test]
fn partially_entered_streak_shows_only_its_head() {
    let mut l = Line::from_parts(2, 5, 1000, 11);
    l.advance();
    l.advance();
    assert_eq!(l.y_milli, -3000);
    let mut cells: Vec<Cell> = Vec::new();
    l.draw(&mut cells, 24);
    assert_eq!(cells.len(), 2);
    assert_eq!(cells[0].row, 0);
    assert_eq!(cells[1].row, 1);

    let mut whole: Vec<Cell> = Vec::new();
    let mut entered = Line::from_parts(2, 5, 1000, 11);
    for _ in 0..5 {
        entered.advance();
    }
    entered.draw(&mut whole, 24);
    assert_eq!(cells[0].glyph, whole[3].glyph);
    assert_eq!(cells[1].glyph, whole[4].glyph);
}

#[test]
fn brightness_is_monotone_towards_leading_edge() {
    let mut l = Line::from_parts(0, 13, 1400, 5);
    for _ in 0..20 {
        l.advance();
    }
    let mut cells: Vec<Cell> = Vec::new();
    l.draw(&mut cells, 30);
    assert_eq!(cells.len(), 13);
    for p in 1..cells.len() {
        assert!(cells[p - 1].brightness_milli <= cells[p].brightness_milli);
    }
}

#[test]
fn brightness_follows_the_formula() {
    let mut l = Line::from_parts(0, 5, 1000, 8);
    for _ in 0..5 {
        l.advance();
    }
    let mut cells: Vec<Cell> = Vec::new();
    l.draw(&mut cells, 24);
    let expected: [u16; 5] = [174, 249, 324, 398, 473];
    for p in 0..5 {
        assert_eq!(cells[p].brightness_milli, expected[p]);
        assert_eq!(cells[p].row, p as u16);
    }
}

#[test]
fn fastest_full_streak_reaches_peak_brightness() {
    let mut l = Line::from_parts(0, 3, 1500, 2);
    for _ in 0..6 {
        l.advance();
    }
    let mut cells: Vec<Cell> = Vec::new();
    l.draw(&mut cells, 24);
    assert_eq!(cells.len(), 3);
    assert_eq!(cells[2].brightness_milli, 660);
    assert!(cells[0].brightness_milli >= 100);
}

#[test]
fn update_on_empty_field_clears_and_draws_nothing() {
    let mut m = Matrix::new();
    let mut cells: Vec<Cell> = Vec::new();
    cells.push(Cell { col: 1, row: 1, glyph: b'x', brightness_milli: 500 });
    m.update(&mut cells, 80, 24);
    assert!(cells.is_empty());
    assert!(m.lines.is_empty());
}

#[test]
fn spawned_streak_falls_through_and_leaves_the_field() {
    let mut m = Matrix::new();
    m.add_line(Line::from_parts(10, 5, 1000, 77));
    let mut cells: Vec<Cell> = Vec::new();

    let mut updates = 0u32;
    while !m.lines.is_empty() {
        m.update(&mut cells, 80, 24);
        updates += 1;
        assert!(updates < 100, "streak never left the field");
    }
    // starts at -5000 milli-rows and is dropped once it reaches 24000
    assert_eq!(updates, 29);
    // the pass that drops the streak still painted it at its old position
    assert_eq!(cells.len(), 1);
    assert_eq!(cells[0].row, 23);
}

#[test]
fn update_advances_every_streak_once() {
    let mut m = Matrix::new();
    m.add_line(Line::from_parts(1, 4, 600, 1));
    m.add_line(Line::from_parts(2, 6, 1500, 2));
    let mut cells: Vec<Cell> = Vec::new();
    m.update(&mut cells, 80, 24);
    assert_eq!(m.lines.len(), 2);
    assert_eq!(m.lines[0].y_milli, -4000 + 600);
    assert_eq!(m.lines[1].y_milli, -6000 + 1500);
}

#[test]
fn update_paints_streaks_in_order() {
    let mut m = Matrix::new();
    let mut a = Line::from_parts(1, 3, 500, 10);
    let mut b = Line::from_parts(2, 3, 500, 20);
    for _ in 0..6 {
        a.advance();
        b.advance();
    }
    m.add_line(a);
    m.add_line(b);
    let mut cells: Vec<Cell> = Vec::new();
    m.update(&mut cells, 80, 24);
    assert_eq!(cells.len(), 6);
    for p in 0..3 {
        assert_eq!(cells[p].col, 1);
        assert_eq!(cells[p + 3].col, 2);
    }
}

#[test]
fn resize_drops_streaks_beyond_the_width() {
    let mut m = Matrix::new();
    m.add_line(Line::from_parts(70, 5, 1000, 6));
    m.add_line(Line::from_parts(5, 5, 1000, 6));
    let mut cells: Vec<Cell> = Vec::new();
    m.update(&mut cells, 40, 24);
    assert_eq!(m.lines.len(), 1);
    assert_eq!(m.lines[0].x, 5);
}

#[test]
fn add_random_line_grows_the_field() {
    let mut rng = rand::rng();
    let mut m = Matrix::new();
    for i in 1..=10 {
        m.add_random_line(&mut rng, 80);
        assert_eq!(m.lines.len(), i);
        let last = m.lines[i - 1];
        assert!(last.x < 80);
        assert_eq!(last.y_milli, -1000 * last.length as i64);
    }
}
