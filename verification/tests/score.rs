use ferris::ferris::{ScoreText, Scoreboard, UiText};
use ferris::systems::score_check::format_score;
use ferris::systems::ScoreCheckSystem;
use ferris::world::{Entity, World};

fn text_entity(text: &str, score_marker: bool) -> Entity {
    Entity {
        rustacean: None,
        bad_touch: None,
        score_text: if score_marker { Some(ScoreText) } else { None },
        transform: None,
        mass: None,
        parallax: None,
        ui_text: Some(UiText { text: String::from(text) }),
    }
}

#[test]
fn score_text_at_two_point_three_seconds() {
    // 2.345 s elapsed is 23 tenths of a second.
    assert_eq!(format_score(2_345), "Score: 00000023");
}

#[test]
fn score_text_at_zero() {
    assert_eq!(format_score(0), "Score: 00000000");
}

#[test]
fn score_text_just_below_a_tenth() {
    assert_eq!(format_score(99), "Score: 00000000");
    assert_eq!(format_score(100), "Score: 00000001");
}

#[test]
fn score_text_keeps_digits_beyond_the_padding() {
    // A value with more than eight digits keeps all of them.
    assert_eq!(format_score(123_456_789_000), "Score: 1234567890");
}

#[test]
fn score_system_rewrites_score_text_while_winning() {
    let mut w = World {
        entities: vec![text_entity("Score: 00000000", true), text_entity("You Lose!", false)],
        scoreboard: Scoreboard { winning: true },
    };
    let mut score = ScoreCheckSystem;
    score.run(&mut w, 2_345);
    assert_eq!(w.entities[0].ui_text.as_ref().unwrap().text, "Score: 00000023");
    assert_eq!(w.entities[1].ui_text.as_ref().unwrap().text, "You Lose!");
}

#[test]
fn score_system_keeps_text_once_lost() {
    let mut w = World {
        entities: vec![text_entity("Score: 00000042", true)],
        scoreboard: Scoreboard { winning: false },
    };
    let mut score = ScoreCheckSystem;
    score.run(&mut w, 99_999);
    assert_eq!(w.entities[0].ui_text.as_ref().unwrap().text, "Score: 00000042");
}
