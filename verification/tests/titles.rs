use bundai::panels::{grid_panels, make_title, sidebar_panels};
use bundai::Rect;

#[test]
fn one_digit_title() {
    assert_eq!(make_title("Kanji ", 7), "Kanji 7");
}

#[test]
fn two_digit_title() {
    assert_eq!(make_title("Kanji ", 25), "Kanji 25");
    assert_eq!(make_title("Kanji ", 10), "Kanji 10");
}

#[test]
fn level_prefix_title() {
    assert_eq!(make_title("Level N", 3), "Level N3");
}

#[test]
fn sidebar_panels_stand_alone() {
    let area = Rect { x: 0, y: 1, width: 24, height: 20 };
    let panels = sidebar_panels(area);
    assert_eq!(panels.len(), 5);
    for (i, p) in panels.iter().enumerate() {
        assert_eq!(p.title, format!("Level N{}", i + 1));
        assert_eq!(p.rect.height, 4);
        assert_eq!(p.rect.y, 1 + 4 * i as u16);
    }
}

#[test]
fn grid_panels_stand_alone() {
    let area = Rect { x: 24, y: 1, width: 55, height: 20 };
    let panels = grid_panels(area);
    assert_eq!(panels.len(), 25);
    for row in 0..5 {
        for col in 0..5 {
            let p = &panels[row * 5 + col];
            assert_eq!(p.title, format!("Kanji {}", row * 5 + col + 1));
            assert_eq!(p.rect.height, 4);
            assert_eq!(p.rect.y, 1 + 4 * row as u16);
        }
    }
    assert_eq!(panels[0].rect.x, 24);
    assert_eq!(panels[0].rect.width, 11);
    assert_eq!(panels[4].rect.x + panels[4].rect.width, 79);
}
