use minigrep::coin::{value_in_cents, Coin, UsState};
use minigrep::excerpt::ImportantExcerpt;
use minigrep::guess::{
    judge, pick_secret, read_guess, reply_to, turn, Reply, Verdict, HIGHEST, LOWEST,
};
use minigrep::point::Point;
use minigrep::shapes::Rectangle;
use minigrep::summary::{returns_summarizable, NewsLetter, Summary, Tweet};
use minigrep::words::first_word;

#[test]
fn rectangle_area() {
    let rect = Rectangle { width: 30, height: 50 };
    assert_eq!(1500, rect.area());
    assert_eq!(0, Rectangle { width: 0, height: 7 }.area());
}

#[test]
fn rectangle_can_hold() {
    let rect = Rectangle { width: 30, height: 50 };
    let smaller = Rectangle { width: 20, height: 40 };
    assert!(rect.can_hold(&smaller));
    assert!(!smaller.can_hold(&rect));
    assert!(!rect.can_hold(&rect));
    assert!(!rect.can_hold(&Rectangle { width: 29, height: 50 }));
}

#[test]
fn rectangle_square() {
    assert_eq!(Rectangle { width: 20, height: 20 }, Rectangle::square(20));
}

#[test]
fn coin_values() {
    assert_eq!(1, value_in_cents(&Coin::Penny));
    assert_eq!(5, value_in_cents(&Coin::Nickel));
    assert_eq!(10, value_in_cents(&Coin::Dime));
    assert_eq!(25, value_in_cents(&Coin::Quarter(UsState::Massachusetts)));
}

#[test]
fn point_mixup() {
    let p1 = Point { x: 5, y: 10.4 };
    let p2 = Point { x: "Hello", y: 'c' };
    let p3 = p1.mixup(p2);
    assert_eq!(5, p3.x);
    assert_eq!('c', p3.y);
}

#[test]
fn excerpt_level() {
    let novel = String::from("Call me Ishmael. Some years ago...");
    let first_sentence = novel.split('.').next().unwrap();
    let i = ImportantExcerpt { part: first_sentence };
    assert_eq!(3, i.level());
    assert_eq!("Call me Ishmael", i.part);
}

#[test]
fn first_word_stops_at_the_first_space() {
    let s = String::from("hello world");
    assert_eq!("hello", first_word(&s[0..5]));
    assert_eq!("hello", first_word(&s[..]));
    assert_eq!("hello", first_word(&s));
    assert_eq!("", first_word(" x"));
    assert_eq!("", first_word(""));
    assert_eq!("gr\u{fc}n", first_word("gr\u{fc}n blau"));
}

#[test]
fn tweet_summary() {
    let tweet = Tweet {
        username: String::from("horse_ebooks"),
        content: String::from("of course, as you probably already know, people"),
        reply: false,
        retweet: false,
    };
    assert_eq!("@horse_ebooks", tweet.summarize_author());
    assert_eq!("Read more from @horse_ebooks...", tweet.summarize());
}

#[test]
fn newsletter_summary() {
    let letter = NewsLetter {
        headline: String::from("Penguins win"),
        location: String::from("Pittsburgh"),
        author: String::from("Iceburgh"),
        content: String::from("The Penguins won again."),
    };
    assert_eq!("distinguised author Iceburgh", letter.summarize_author());
    assert_eq!("Read more from distinguised author Iceburgh...", letter.summarize());
}

#[test]
fn ready_made_summarizable() {
    let t = returns_summarizable();
    assert_eq!("@user", t.summarize_author());
    assert_eq!("Read more from @user...", t.summarize());
}

#[test]
fn judge_compares_guess_and_secret() {
    assert_eq!(Verdict::TooSmall, judge(3, 50));
    assert_eq!(Verdict::TooLarge, judge(51, 50));
    assert_eq!(Verdict::Correct, judge(50, 50));
    assert_eq!(Verdict::TooSmall, judge(0, u32::MAX));
}

#[test]
fn verdict_messages() {
    assert_eq!("Too Small", Verdict::TooSmall.message());
    assert_eq!("Too Large", Verdict::TooLarge.message());
    assert_eq!("Ayylmao", Verdict::Correct.message());
    assert!(Verdict::Correct.ends_game());
    assert!(!Verdict::TooSmall.ends_game());
    assert!(!Verdict::TooLarge.ends_game());
}

#[test]
fn read_guess_takes_whitespace_off() {
    assert_eq!(Some(42), read_guess(" 42\n"));
    assert_eq!(Some(7), read_guess("7"));
    assert_eq!(Some(100), read_guess("\t100 \r\n"));
}

#[test]
fn read_guess_refuses_what_is_no_number() {
    assert_eq!(None, read_guess("abc\n"));
    assert_eq!(None, read_guess("\n"));
    assert_eq!(None, read_guess("-1\n"));
    assert_eq!(None, read_guess("4 2\n"));
    assert_eq!(None, read_guess("4294967296\n"));
}

#[test]
fn reply_to_entries() {
    assert_eq!(Reply::AskAgain, reply_to(None, 10));
    assert_eq!(Reply::Tell(Verdict::TooSmall), reply_to(Some(9), 10));
    assert_eq!(Reply::Tell(Verdict::TooLarge), reply_to(Some(11), 10));
    assert_eq!(Reply::Tell(Verdict::Correct), reply_to(Some(10), 10));
}

#[test]
fn turn_reads_and_answers() {
    assert_eq!(Reply::Tell(Verdict::Correct), turn("10\n", 10));
    assert_eq!(Reply::Tell(Verdict::TooLarge), turn("  99 \n", 10));
    assert_eq!(Reply::AskAgain, turn("ten\n", 10));
}

#[test]
fn secret_lies_within_the_bounds() {
    assert_eq!(1, LOWEST);
    assert_eq!(100, HIGHEST);
    for _ in 0..1000 {
        let n = pick_secret();
        assert!(LOWEST <= n && n <= HIGHEST);
    }
}
