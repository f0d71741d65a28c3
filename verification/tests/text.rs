use flappy_dragon::screen::Message;
use flappy_dragon::text::push_decimal;

#[test]
fn the_fixed_lines() {
    assert_eq!(Message::Welcome.text(), "Welcome to Flappy Dragon!");
    assert_eq!(Message::PlayOption.text(), "[P] Play Game");
    assert_eq!(Message::QuitOption.text(), "[Q] Quit Game");
    assert_eq!(Message::FlapHint.text(), "Press [Space] to flap!");
    assert_eq!(Message::Dead.text(), "You are dead!");
}

#[test]
fn the_score_line() {
    assert_eq!(Message::Score(0).text(), "Score: 0");
    assert_eq!(Message::Score(7).text(), "Score: 7");
    assert_eq!(Message::Score(10).text(), "Score: 10");
    assert_eq!(Message::Score(1234567890).text(), "Score: 1234567890");
}

#[test]
fn the_final_score_line() {
    assert_eq!(Message::Earned(0).text(), "You earned 0 points.");
    assert_eq!(Message::Earned(1).text(), "You earned 1 points.");
    assert_eq!(Message::Earned(42).text(), "You earned 42 points.");
}

#[test]
fn a_negative_score_has_a_minus_sign() {
    assert_eq!(Message::Score(-1).text(), "Score: -1");
    assert_eq!(Message::Earned(-305).text(), "You earned -305 points.");
}

#[test]
fn the_ends_of_the_number_range_in_decimal() {
    assert_eq!(Message::Score(i32::MAX).text(), "Score: 2147483647");
    assert_eq!(Message::Score(i32::MIN).text(), "Score: -2147483648");
}

#[test]
fn decimal_agrees_with_the_standard_formatting() {
    let samples = [0, 1, 9, 10, 11, 99, 100, 101, 999, 1000, 65535, -1, -9, -10, -100, 26_512_141];
    for n in samples {
        let mut line = String::new();
        push_decimal(&mut line, n);
        assert_eq!(line, n.to_string());
    }
}

#[test]
fn push_decimal_appends() {
    let mut line = String::from("x = ");
    push_decimal(&mut line, 50);
    assert_eq!(line, "x = 50");
    push_decimal(&mut line, -2);
    assert_eq!(line, "x = 50-2");
}
