use risk_management::control::keyboards::{
    confirm, main_menu, pagination, trading_actions, InlineKeyboardBuilder, InlineKeyboardButton,
    ReplyKeyboardBuilder,
};

fn callback_of(button: &InlineKeyboardButton) -> (&str, &str) {
    match button {
        InlineKeyboardButton::Callback { text, callback_data } => (text, callback_data),
        InlineKeyboardButton::Url { .. } => panic!("expected a callback button"),
    }
}

#[test]
fn test_inline_keyboard() {
    let kb = InlineKeyboardBuilder::new()
        .button("Btn1", "cb1")
        .button("Btn2", "cb2")
        .row()
        .button("Btn3", "cb3")
        .build();

    assert_eq!(kb.inline_keyboard.len(), 2);
    assert_eq!(kb.inline_keyboard[0].len(), 2);
    assert_eq!(kb.inline_keyboard[1].len(), 1);
    assert_eq!(callback_of(&kb.inline_keyboard[0][1]), ("Btn2", "cb2"));
}

#[test]
fn test_inline_keyboard_url_button() {
    let kb = InlineKeyboardBuilder::new()
        .url_button("Docs", "https://example.test/docs")
        .build();
    assert_eq!(kb.inline_keyboard.len(), 1);
    match &kb.inline_keyboard[0][0] {
        InlineKeyboardButton::Url { text, url } => {
            assert_eq!(text, "Docs");
            assert_eq!(url, "https://example.test/docs");
        }
        InlineKeyboardButton::Callback { .. } => panic!("expected a URL button"),
    }
}

#[test]
fn test_confirm_layout() {
    let kb = confirm("sell");
    assert_eq!(kb.inline_keyboard.len(), 1);
    assert_eq!(kb.inline_keyboard[0].len(), 2);
    assert_eq!(
        callback_of(&kb.inline_keyboard[0][0]),
        ("\u{2705} Yes", "sell:yes")
    );
    assert_eq!(
        callback_of(&kb.inline_keyboard[0][1]),
        ("\u{274C} No", "sell:no")
    );
}

#[test]
fn test_pagination_layout() {
    let first = pagination(0, 3, "list");
    assert_eq!(first.inline_keyboard[0].len(), 2);
    assert_eq!(
        callback_of(&first.inline_keyboard[0][0]),
        ("1/3", "list:noop")
    );
    assert_eq!(
        callback_of(&first.inline_keyboard[0][1]),
        ("Next \u{27A1}\u{FE0F}", "list:page:1")
    );

    let middle = pagination(1, 3, "list");
    assert_eq!(middle.inline_keyboard[0].len(), 3);
    assert_eq!(
        callback_of(&middle.inline_keyboard[0][0]),
        ("\u{2B05}\u{FE0F} Prev", "list:page:0")
    );
    assert_eq!(
        callback_of(&middle.inline_keyboard[0][1]),
        ("2/3", "list:noop")
    );

    let last = pagination(2, 3, "list");
    assert_eq!(last.inline_keyboard[0].len(), 2);
    assert_eq!(
        callback_of(&last.inline_keyboard[0][1]),
        ("3/3", "list:noop")
    );

    // An empty listing still renders: just the position label.
    let empty = pagination(0, 0, "list");
    assert_eq!(empty.inline_keyboard[0].len(), 1);
    assert_eq!(
        callback_of(&empty.inline_keyboard[0][0]),
        ("1/0", "list:noop")
    );
}

#[test]
fn test_trading_actions_layout() {
    let kb = trading_actions("TEST");
    assert_eq!(kb.inline_keyboard.len(), 2);
    assert_eq!(
        callback_of(&kb.inline_keyboard[0][0]),
        ("\u{1F4C8} Buy TEST", "trade:buy:TEST")
    );
    assert_eq!(
        callback_of(&kb.inline_keyboard[0][1]),
        ("\u{1F4C9} Sell TEST", "trade:sell:TEST")
    );
    assert_eq!(
        callback_of(&kb.inline_keyboard[1][0]),
        ("\u{1F4CA} View Chart", "chart:TEST")
    );
    assert_eq!(
        callback_of(&kb.inline_keyboard[1][1]),
        ("\u{2699}\u{FE0F} Settings", "settings:open")
    );
}

#[test]
fn test_main_menu_layout() {
    let kb = main_menu();
    assert_eq!(kb.keyboard.len(), 2);
    assert_eq!(kb.keyboard[0][0].text, "\u{1F4CA} Dashboard");
    assert_eq!(kb.keyboard[1][1].text, "\u{2699}\u{FE0F} Settings");
    assert!(kb.resize_keyboard);
    assert!(!kb.one_time_keyboard);
}

#[test]
fn test_reply_keyboard_builder() {
    let kb = ReplyKeyboardBuilder::new()
        .button("A")
        .row()
        .button("B")
        .resize(false)
        .one_time(true)
        .build();
    assert_eq!(kb.keyboard.len(), 2);
    assert_eq!(kb.keyboard[0][0].text, "A");
    assert_eq!(kb.keyboard[1][0].text, "B");
    assert!(!kb.resize_keyboard);
    assert!(kb.one_time_keyboard);
}
