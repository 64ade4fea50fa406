use snippet_harness::item::WorkItem;
use snippet_harness::report::{plain_report, render_item_line, render_report};
use snippet_harness::results::ResultData;
use snippet_harness::verdict::BuildVerdict;

fn item() -> WorkItem {
    WorkItem {
        id: 5,
        text: String::from("fn main() {}"),
        created_at: String::from("then"),
        author: None,
    }
}

#[test]
fn colours_follow_the_switch() {
    let mut failed = ResultData::new();
    failed.set_total(1);
    failed.record(5, BuildVerdict::Fail(String::from("e")));
    let mut passed = ResultData::new();
    passed.set_total(1);
    passed.record(5, BuildVerdict::Pass);

    colored::control::set_override(true);
    assert_eq!(
        render_report(&passed, false),
        "\ntest result: \u{1b}[32mPASS\u{1b}[0m. 1 passed; 0 failed; 0 ignored\n"
    );
    assert_eq!(
        render_report(&passed, true),
        "\ntest result: \u{1b}[33mABORTED\u{1b}[0m. 1 passed; 0 failed; 0 ignored; 0 aborted\n"
    );
    assert_eq!(
        render_report(&failed, false),
        "\nfailures:\n\n---- 5 stderr ----\ne\nfailures:\n    5\n\
         \ntest result: \u{1b}[31mFAILED\u{1b}[0m. 0 passed; 1 failed; 0 ignored\n"
    );
    assert_eq!(
        render_item_line(&item(), &BuildVerdict::Pass),
        "test 5 (then) ... \u{1b}[32mok\u{1b}[0m\n"
    );
    assert_eq!(
        render_item_line(&item(), &BuildVerdict::Fail(String::from("e"))),
        "test 5 (then) ... \u{1b}[31mFAILED\u{1b}[0m\n"
    );
    assert_eq!(
        render_item_line(&item(), &BuildVerdict::Aborted),
        "test 5 (then) ... \u{1b}[33mABORTED\u{1b}[0m\n"
    );

    colored::control::set_override(false);
    assert_eq!(render_report(&passed, false), plain_report(&passed, false));
    assert_eq!(render_report(&failed, true), plain_report(&failed, true));
    assert_eq!(render_item_line(&item(), &BuildVerdict::Pass), "test 5 (then) ... ok\n");
    colored::control::unset_override();
}
