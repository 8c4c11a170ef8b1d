use gobliso::choice::{ColorChoice, SizeChoice};
use gobliso::ui::{App, Caption, DrawCommand};

fn fills(app: &App) -> Vec<(i32, i32)> {
    app.frame()
        .iter()
        .filter_map(|c| match c {
            DrawCommand::Fill { x, y, .. } => Some((*x, *y)),
            _ => None,
        })
        .collect()
}

#[test]
fn starts_with_first_choices() {
    let app = App::new();
    assert_eq!(app.size, SizeChoice::Square);
    assert_eq!(app.color, ColorChoice::White);
}

#[test]
fn click_on_first_size_row_selects_square() {
    let mut app = App::new();
    app.click(20, 36);
    assert_eq!(app.size, SizeChoice::Tall);
    app.click(16, 16);
    assert_eq!(app.size, SizeChoice::Square);
    assert_eq!(fills(&app), vec![(16, 16), (91, 16)]);
}

#[test]
fn click_rows_and_edges() {
    let mut app = App::new();
    app.click(13, 23);
    assert_eq!(app.size, SizeChoice::Wide);
    app.click(70, 41);
    assert_eq!(app.size, SizeChoice::Tall);
    // Just outside the rows and columns.
    app.click(71, 16);
    app.click(12, 16);
    app.click(20, 22);
    app.click(20, 42);
    assert_eq!(app.size, SizeChoice::Tall);
    assert_eq!(app.color, ColorChoice::White);
}

#[test]
fn click_on_colour_rows() {
    let mut app = App::new();
    app.click(88, 31);
    assert_eq!(app.color, ColorChoice::Black);
    // There is no third colour row.
    app.click(100, 35);
    assert_eq!(app.color, ColorChoice::Black);
    app.click(121, 13);
    assert_eq!(app.color, ColorChoice::White);
    app.click(122, 13);
    assert_eq!(app.color, ColorChoice::White);
    assert_eq!(app.size, SizeChoice::Square);
}

#[test]
fn frame_marks_one_box_per_list() {
    let mut app = App::new();
    app.click(20, 26);
    app.click(100, 26);
    assert_eq!(fills(&app), vec![(16, 26), (91, 26)]);
    let frame = app.frame();
    assert_eq!(frame.len(), 17);
    assert_eq!(frame[0], DrawCommand::Clear { color: 7 });
    assert_eq!(frame[16], DrawCommand::Text { x: 37, y: 87, caption: Caption::DropPrompt, color: 0 });
    assert_eq!(frame[15], DrawCommand::Frame { x: 10, y: 45, w: 120, h: 90, color: 0 });
}

#[test]
fn captions_read_as_shown() {
    assert_eq!(Caption::WideItem.text(), "1080 x  566");
    assert_eq!(Caption::DropPrompt.text(), "DROP IMAGES HERE!");
    assert_eq!(Caption::ColorLabel.text(), "COLOR");
}

#[test]
fn choices_by_index() {
    assert_eq!(SizeChoice::from_index(2), Some(SizeChoice::Tall));
    assert_eq!(SizeChoice::from_index(3), None);
    assert_eq!(ColorChoice::from_index(1), Some(ColorChoice::Black));
    assert_eq!(ColorChoice::from_index(2), None);
    assert_eq!(ColorChoice::Black.rgb(), (0, 0, 0));
    assert_eq!(SizeChoice::Wide.prefix(), "_1080x566_");
    assert_eq!(SizeChoice::Tall.index(), 2);
}
