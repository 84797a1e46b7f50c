use rust_basics::enums::{plus_one, value_in_cents, Coin, IpAddr, UsState};
use rust_basics::generics::{longest_of_two_strings, Point};
use rust_basics::structs::{build_user, get_rect, get_square_rect, Rectangle};
use rust_basics::traits::{returns_summarizable, summarize_by_author, NewsArticle, Summary, Tweet};

#[test]
fn coin_values() {
    assert_eq!(value_in_cents(Coin::Penny), 1);
    assert_eq!(value_in_cents(Coin::Nickel), 5);
    assert_eq!(value_in_cents(Coin::Dime), 10);
    assert_eq!(value_in_cents(Coin::Quarter(UsState::Alabama)), 25);
    assert_eq!(value_in_cents(Coin::Quarter(UsState::Alaska)), 25);
}

#[test]
fn plus_one_on_options() {
    assert_eq!(plus_one(Some(5)), Some(6));
    assert_eq!(plus_one(Some(-1)), Some(0));
    assert_eq!(plus_one(None), None);
}

#[test]
fn ip_addresses_hold_their_parts() {
    let home = IpAddr::V4(127, 0, 0, 1);
    let loopback = IpAddr::V6(String::from("::1"));
    assert!(matches!(home, IpAddr::V4(127, 0, 0, 1)));
    assert!(matches!(loopback, IpAddr::V6(ref s) if s == "::1"));
}

#[test]
fn longest_string_by_bytes() {
    assert_eq!(longest_of_two_strings("abcd", "xyz"), "abcd");
    assert_eq!(longest_of_two_strings("ab", "xyz"), "xyz");
    assert_eq!(longest_of_two_strings("abc", "xyz"), "xyz");
}

#[test]
fn point_accessors_and_mixup() {
    let p1 = Point { x: 4, y: 3.9 };
    let p2 = Point { x: "Hello", y: 'c' };
    assert_eq!(*p1.x(), 4);
    assert_eq!(*p1.y(), 3.9);
    let p3 = p1.mixup(p2);
    assert_eq!(p3.x, 4);
    assert_eq!(p3.y, 'c');
}

#[test]
fn rectangle_areas() {
    let rect = get_rect(30, 30);
    assert_eq!(rect.area(), 900);
    assert_eq!(get_rect(3, 7).area(), 21);
    assert_eq!(get_square_rect(10).area(), 100);
    assert_eq!(Rectangle::square(0).area(), 0);
}

#[test]
fn new_user_is_inactive() {
    let u = build_user(String::from("ameer"), String::from("ameer@example.com"));
    assert!(!u.active);
}

#[test]
fn tweet_summaries() {
    let tweet = Tweet {
        username: String::from("horse_ebooks"),
        content: String::from("of course, as you probably already know, people"),
        reply: false,
        retweet: false,
    };
    assert_eq!(tweet.summarize_author(), "@horse_ebooks");
    assert_eq!(
        tweet.summarize(),
        "horse_ebooks: of course, as you probably already know, people"
    );
    assert_eq!(summarize_by_author(&tweet), "(Read more from @horse_ebooks...)");
}

#[test]
fn article_summaries() {
    let article = NewsArticle {
        headline: String::from("Florida man does something"),
        location: String::from("Florida"),
        author: String::from("A florida man"),
        content: String::from("everything"),
    };
    assert_eq!(article.summarize_author(), "@A florida man");
    assert_eq!(
        article.summarize(),
        "Florida man does something, by A florida man (Florida)"
    );
}

#[test]
fn sample_tweet() {
    let t = returns_summarizable();
    assert_eq!(t.summarize_author(), "@horse_ebooks");
    assert_eq!(
        t.summarize(),
        "horse_ebooks: of course, as you probably already know, people"
    );
}
