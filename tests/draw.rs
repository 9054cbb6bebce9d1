use icmt::draw::{draw, translate_color, translate_rect, DrawCmd};
use icmt::graphics::{Dim, Elm, Fill, Node, Out, Pos, Rect, Result};

fn background(w: u64, h: u64) -> DrawCmd {
    DrawCmd { rect: Rect::new(0, 0, w, h), fill: Fill::Closed((0, 0, 0)) }
}

fn nested_scene() -> Elm {
    Elm::Node(Box::new(Node {
        rect: Rect::new(10, 20, 100, 50),
        fill: Fill::Open((255, 0, 0), 2),
        elms: vec![
            Elm::Rect(Rect::new(1, 2, 3, 4), Fill::Closed((0, 255, 0))),
            Elm::Rect(Rect::new(5, 5, 5, 5), Fill::Empty),
            Elm::Node(Box::new(Node {
                rect: Rect::new(30, 40, 10, 10),
                fill: Fill::Empty,
                elms: vec![Elm::Rect(Rect::new(1, 1, 2, 2), Fill::Closed((0, 0, 255)))],
            })),
        ],
    }))
}

#[test]
fn error_result_draws_only_background() {
    let dim = Dim { width: 300, height: 200 };
    let cmds = draw(&dim, &Result::Failed(Some("boom".to_string())));
    assert_eq!(cmds, vec![background(300, 200)]);
    let cmds = draw(&dim, &Result::Failed(None));
    assert_eq!(cmds, vec![background(300, 200)]);
}

#[test]
fn nested_nodes_are_drawn_relative_to_their_parents() {
    let dim = Dim { width: 500, height: 400 };
    let cmds = draw(&dim, &Result::Drawn(Out::Draw(nested_scene())));
    assert_eq!(
        cmds,
        vec![
            background(500, 400),
            DrawCmd { rect: Rect::new(10, 20, 100, 50), fill: Fill::Open((255, 0, 0), 2) },
            DrawCmd { rect: Rect::new(11, 22, 3, 4), fill: Fill::Closed((0, 255, 0)) },
            DrawCmd { rect: Rect::new(41, 61, 2, 2), fill: Fill::Closed((0, 0, 255)) },
        ]
    );
}

#[test]
fn drawing_twice_gives_the_same_commands() {
    let dim = Dim { width: 64, height: 48 };
    let rr = Result::Drawn(Out::Draw(nested_scene()));
    let first = draw(&dim, &rr);
    let second = draw(&dim, &rr);
    assert_eq!(first, second);
    assert_eq!(first[0], background(64, 48));
}

#[test]
fn redraw_of_screen_layer_draws_it() {
    let dim = Dim { width: 8, height: 8 };
    let layer = Elm::Rect(Rect::new(2, 3, 4, 5), Fill::Closed((9, 9, 9)));
    let cmds = draw(&dim, &Result::Drawn(Out::Redraw(vec![("screen".to_string(), layer)])));
    assert_eq!(
        cmds,
        vec![
            background(8, 8),
            DrawCmd { rect: Rect::new(2, 3, 4, 5), fill: Fill::Closed((9, 9, 9)) },
        ]
    );
}

#[test]
fn redraw_of_other_layers_draws_background_only() {
    let dim = Dim { width: 8, height: 8 };
    let a = Elm::Rect(Rect::new(2, 3, 4, 5), Fill::Closed((9, 9, 9)));
    let cmds = draw(&dim, &Result::Drawn(Out::Redraw(vec![("status".to_string(), a)])));
    assert_eq!(cmds, vec![background(8, 8)]);
    let a = Elm::Rect(Rect::new(2, 3, 4, 5), Fill::Closed((9, 9, 9)));
    let b = Elm::Rect(Rect::new(2, 3, 4, 5), Fill::Closed((9, 9, 9)));
    let two = vec![("screen".to_string(), a), ("screen".to_string(), b)];
    let cmds = draw(&dim, &Result::Drawn(Out::Redraw(two)));
    assert_eq!(cmds, vec![background(8, 8)]);
    let cmds = draw(&dim, &Result::Drawn(Out::Redraw(vec![])));
    assert_eq!(cmds, vec![background(8, 8)]);
}

#[test]
fn translate_rect_adds_offsets_and_saturates() {
    let r = translate_rect(&Pos { x: 7, y: 9 }, &Rect::new(1, 2, 3, 4));
    assert_eq!(r, Rect::new(8, 11, 3, 4));
    let r = translate_rect(&Pos { x: u64::MAX - 1, y: 0 }, &Rect::new(5, 0, 1, 1));
    assert_eq!(r, Rect::new(u64::MAX, 0, 1, 1));
}

#[test]
fn translate_color_clamps_components() {
    assert_eq!(translate_color(&(0, 128, 255)), (0, 128, 255));
    assert_eq!(translate_color(&(256, 1000, 7)), (255, 255, 7));
}
