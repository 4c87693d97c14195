use minigrep::boxed::MyBox;
use minigrep::generics::{largest, longest, where_clause, Pair, Summary, Tweet};
use minigrep::guessing::{judge, secret_number, step, Step, Verdict};
use minigrep::numbers::fib;
use minigrep::pig_latin::{
    pig_latin, pig_latin_consonant, pig_latin_vowel, pig_latin_word, pig_latin_words,
};
use minigrep::stats::{get_mode, middle_values, total};

#[test]
fn fib_values() {
    assert_eq!(fib(-3), 0);
    assert_eq!(fib(0), 0);
    assert_eq!(fib(1), 0);
    assert_eq!(fib(2), 1);
    assert_eq!(fib(3), 1);
    assert_eq!(fib(8), 13);
    assert_eq!(fib(47), 1836311903);
}

#[test]
fn largest_of_a_list() {
    let list = vec![1, 2, 3, 4, 5, 9, 10, 4, 5];
    assert_eq!(*largest(&list), 10);
    assert_eq!(*largest(&[-7]), -7);
    assert_eq!(*largest(&[-7, -2, -9]), -2);
}

#[test]
fn longest_prefers_more_bytes_then_second() {
    assert_eq!(longest("abcd", "xyz"), "abcd");
    assert_eq!(longest("xyz", "abcd"), "abcd");
    assert_eq!(longest("abc", "xyz"), "xyz");
    assert_eq!(longest("é", "ab"), "ab");
}

#[test]
fn tweet_summaries() {
    let tweet = Tweet {
        username: String::from("bryanleebmy"),
        content: String::from("We are watching Shameless!"),
        reply: false,
        retweet: false,
    };
    assert_eq!(tweet.summarize_author(), "@bryanleebmy");
    assert_eq!(tweet.summarize(), "(Read more from @bryanleebmy...)");
}

#[test]
fn where_clause_answers_zero() {
    assert_eq!(where_clause(String::from("t"), vec![1u8]), 0);
}

#[test]
fn pair_and_box_keep_their_values() {
    let p = Pair::new(3, 4);
    assert_eq!((p.x, p.y), (3, 4));
    let b = MyBox::new(5);
    assert_eq!(5, *b);
    assert_eq!(b.0, 5);
}

#[test]
fn pig_latin_sentence() {
    assert_eq!(pig_latin("first apple"), "irst-fay apple-hay");
    assert_eq!(pig_latin("  first \t apple\n"), "irst-fay apple-hay");
    assert_eq!(pig_latin(""), "");
    assert_eq!(pig_latin_words(&["first", "apple"]), "irst-fay apple-hay");
    assert_eq!(pig_latin_words(&[]), "");
}

#[test]
fn pig_latin_single_words() {
    assert_eq!(pig_latin_word(""), "");
    assert_eq!(pig_latin_word("a"), "a-hay");
    assert_eq!(pig_latin_word("b"), "-bay");
    assert_eq!(pig_latin_word("über"), "ber-üay");
    assert_eq!(pig_latin_vowel("apple"), "apple-hay");
    assert_eq!(pig_latin_consonant('f', "irst"), "irst-fay");
}

#[test]
fn mode_of_numbers() {
    let numbers = vec![1, 3, 5, 6, 6, 7, 8, 10, 4, 8];
    let mut mode = get_mode(&numbers);
    mode.sort();
    assert_eq!(mode, vec![6, 8]);
    assert_eq!(get_mode(&[]), Vec::<i32>::new());
    assert_eq!(get_mode(&[4, 4, 4]), vec![4]);
    assert_eq!(get_mode(&[2, 1]), vec![2, 1]);
}

#[test]
fn mean_and_median_parts() {
    let numbers = vec![1, 3, 5, 6, 6, 7, 8, 10, 4, 8];
    assert_eq!(total(&numbers), 58);
    assert_eq!(total(&[]), 0);
    assert_eq!(total(&[i32::MAX, i32::MAX]), 2 * i32::MAX as i128);
    assert_eq!(middle_values(&numbers), (6, 6));
    assert_eq!(middle_values(&[9, 1, 5]), (5, 5));
    assert_eq!(middle_values(&[9, 1, 5, 2]), (2, 5));
}

#[test]
fn guessing_decisions() {
    assert_eq!(judge(3, 50), Verdict::TooSmall);
    assert_eq!(judge(70, 50), Verdict::TooBig);
    assert_eq!(judge(50, 50), Verdict::Win);
    assert_eq!(step(None, 50), Step::AskAgain);
    assert_eq!(step(Some(50), 50), Step::Judged(Verdict::Win));
    assert!(Verdict::Win.is_final());
    assert!(!Verdict::TooBig.is_final());
    assert_eq!(Verdict::TooSmall.message(), "Too small!");
    for _ in 0..200 {
        let s = secret_number();
        assert!((1..=100).contains(&s));
    }
}
