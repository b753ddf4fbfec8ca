//! Builders for inline and reply keyboards, and some pre-built
//! layouts. The keyboards are plain values; the display layer turns
//! them into whatever its transport wants.

use vstd::prelude::*;
use vstd::string::StringExecFns;

use crate::decimal::{dec_usize, spec_dec_nat};

verus! {

/// One inline button: a label, wired to callback data or to a URL.
#[derive(Clone, Debug)]
pub enum InlineKeyboardButton {
    Callback { text: String, callback_data: String },
    Url { text: String, url: String },
}

/// Whether a button is a callback button with the given label and
/// data.
pub open spec fn is_callback(b: InlineKeyboardButton, text: Seq<char>, data: Seq<char>) -> bool {
    b matches InlineKeyboardButton::Callback { text: t, callback_data: d } && t@ == text && d@
        == data
}

/// Whether a button is a URL button with the given label and target.
pub open spec fn is_url(b: InlineKeyboardButton, text: Seq<char>, url: Seq<char>) -> bool {
    b matches InlineKeyboardButton::Url { text: t, url: u } && t@ == text && u@ == url
}

/// An inline keyboard: rows of inline buttons.
#[derive(Clone, Debug)]
pub struct InlineKeyboardMarkup {
    pub inline_keyboard: Vec<Vec<InlineKeyboardButton>>,
}

/// Builder for inline keyboards.
#[derive(Debug)]
pub struct InlineKeyboardBuilder {
    rows: Vec<Vec<InlineKeyboardButton>>,
    current_row: Vec<InlineKeyboardButton>,
}

impl InlineKeyboardBuilder {
    /// The finished rows so far.
    pub closed spec fn spec_rows(self) -> Seq<Vec<InlineKeyboardButton>> {
        self.rows@
    }

    /// The row being filled.
    pub closed spec fn spec_current_row(self) -> Seq<InlineKeyboardButton> {
        self.current_row@
    }

    /// The row being filled, as the vector a flush would push.
    pub closed spec fn spec_current_row_vec(self) -> Vec<InlineKeyboardButton> {
        self.current_row
    }

    /// The rows a `build` would produce: the finished rows, with the
    /// current row flushed after them unless it is empty.
    pub open spec fn spec_built_rows(self) -> Seq<Vec<InlineKeyboardButton>> {
        if self.spec_current_row().len() > 0 {
            self.spec_rows().push(self.spec_current_row_vec())
        } else {
            self.spec_rows()
        }
    }

    /// Start with no rows.
    pub fn new() -> (r: Self)
        ensures
            r.spec_rows().len() == 0,
            r.spec_current_row().len() == 0,
    {
        InlineKeyboardBuilder { rows: Vec::new(), current_row: Vec::new() }
    }

    /// Add a callback button to the current row.
    pub fn button(self, text: &str, callback_data: &str) -> (r: Self)
        ensures
            r.spec_rows() == self.spec_rows(),
            r.spec_current_row().len() == self.spec_current_row().len() + 1,
            r.spec_current_row().drop_last() == self.spec_current_row(),
            is_callback(r.spec_current_row().last(), text@, callback_data@),
    {
        let mut s = self;
        s.current_row.push(
            InlineKeyboardButton::Callback {
                text: text.to_owned(),
                callback_data: callback_data.to_owned(),
            },
        );
        proof {
            assert(s.spec_current_row().drop_last() =~= self.spec_current_row());
        }
        s
    }

    /// Add a URL button to the current row.
    pub fn url_button(self, text: &str, url: &str) -> (r: Self)
        ensures
            r.spec_rows() == self.spec_rows(),
            r.spec_current_row().len() == self.spec_current_row().len() + 1,
            r.spec_current_row().drop_last() == self.spec_current_row(),
            is_url(r.spec_current_row().last(), text@, url@),
    {
        let mut s = self;
        s.current_row.push(
            InlineKeyboardButton::Url { text: text.to_owned(), url: url.to_owned() },
        );
        proof {
            assert(s.spec_current_row().drop_last() =~= self.spec_current_row());
        }
        s
    }

    /// Finish the current row and start a new one; an empty current
    /// row is left alone.
    pub fn row(self) -> (r: Self)
        ensures
            r.spec_rows() == self.spec_built_rows(),
            r.spec_current_row().len() == 0,
    {
        let InlineKeyboardBuilder { mut rows, current_row } = self;
        if current_row.len() > 0 {
            rows.push(current_row);
            InlineKeyboardBuilder { rows, current_row: Vec::new() }
        } else {
            InlineKeyboardBuilder { rows, current_row }
        }
    }

    /// Build the keyboard, flushing a non-empty current row.
    pub fn build(self) -> (r: InlineKeyboardMarkup)
        ensures
            r.inline_keyboard@ == self.spec_built_rows(),
    {
        let InlineKeyboardBuilder { mut rows, current_row } = self;
        if current_row.len() > 0 {
            rows.push(current_row);
        }
        InlineKeyboardMarkup { inline_keyboard: rows }
    }
}

impl Default for InlineKeyboardBuilder {
    fn default() -> (r: Self)
        ensures
            r.spec_rows().len() == 0,
            r.spec_current_row().len() == 0,
    {
        Self::new()
    }
}

/// One reply button: a label.
#[derive(Clone, Debug)]
pub struct KeyboardButton {
    pub text: String,
}

/// A reply keyboard: rows of labelled buttons and its display options.
#[derive(Clone, Debug)]
pub struct ReplyKeyboardMarkup {
    pub keyboard: Vec<Vec<KeyboardButton>>,
    pub resize_keyboard: bool,
    pub one_time_keyboard: bool,
}

/// Builder for reply keyboards.
#[derive(Debug)]
pub struct ReplyKeyboardBuilder {
    rows: Vec<Vec<KeyboardButton>>,
    current_row: Vec<KeyboardButton>,
    resize: bool,
    one_time: bool,
}

impl ReplyKeyboardBuilder {
    /// The finished rows so far.
    pub closed spec fn spec_rows(self) -> Seq<Vec<KeyboardButton>> {
        self.rows@
    }

    /// The row being filled.
    pub closed spec fn spec_current_row(self) -> Seq<KeyboardButton> {
        self.current_row@
    }

    /// The row being filled, as the vector a flush would push.
    pub closed spec fn spec_current_row_vec(self) -> Vec<KeyboardButton> {
        self.current_row
    }

    /// The resize option.
    pub closed spec fn spec_resize(self) -> bool {
        self.resize
    }

    /// The one-time option.
    pub closed spec fn spec_one_time(self) -> bool {
        self.one_time
    }

    /// The rows a `build` would produce.
    pub open spec fn spec_built_rows(self) -> Seq<Vec<KeyboardButton>> {
        if self.spec_current_row().len() > 0 {
            self.spec_rows().push(self.spec_current_row_vec())
        } else {
            self.spec_rows()
        }
    }

    /// Start with no rows, resizing on and one-time off.
    pub fn new() -> (r: Self)
        ensures
            r.spec_rows().len() == 0,
            r.spec_current_row().len() == 0,
            r.spec_resize(),
            !r.spec_one_time(),
    {
        ReplyKeyboardBuilder {
            rows: Vec::new(),
            current_row: Vec::new(),
            resize: true,
            one_time: false,
        }
    }

    /// Add a button to the current row.
    pub fn button(self, text: &str) -> (r: Self)
        ensures
            r.spec_rows() == self.spec_rows(),
            r.spec_current_row().len() == self.spec_current_row().len() + 1,
            r.spec_current_row().drop_last() == self.spec_current_row(),
            r.spec_current_row().last().text@ == text@,
            r.spec_resize() == self.spec_resize(),
            r.spec_one_time() == self.spec_one_time(),
    {
        let mut s = self;
        s.current_row.push(KeyboardButton { text: text.to_owned() });
        proof {
            assert(s.spec_current_row().drop_last() =~= self.spec_current_row());
        }
        s
    }

    /// Finish the current row and start a new one; an empty current
    /// row is left alone.
    pub fn row(self) -> (r: Self)
        ensures
            r.spec_rows() == self.spec_built_rows(),
            r.spec_current_row().len() == 0,
            r.spec_resize() == self.spec_resize(),
            r.spec_one_time() == self.spec_one_time(),
    {
        let ReplyKeyboardBuilder { mut rows, current_row, resize, one_time } = self;
        if current_row.len() > 0 {
            rows.push(current_row);
            ReplyKeyboardBuilder { rows, current_row: Vec::new(), resize, one_time }
        } else {
            ReplyKeyboardBuilder { rows, current_row, resize, one_time }
        }
    }

    /// Set the resize option.
    pub fn resize(self, resize: bool) -> (r: Self)
        ensures
            r.spec_rows() == self.spec_rows(),
            r.spec_current_row() == self.spec_current_row(),
            r.spec_resize() == resize,
            r.spec_one_time() == self.spec_one_time(),
    {
        let mut s = self;
        s.resize = resize;
        s
    }

    /// Set the one-time option.
    pub fn one_time(self, one_time: bool) -> (r: Self)
        ensures
            r.spec_rows() == self.spec_rows(),
            r.spec_current_row() == self.spec_current_row(),
            r.spec_resize() == self.spec_resize(),
            r.spec_one_time() == one_time,
    {
        let mut s = self;
        s.one_time = one_time;
        s
    }

    /// Build the keyboard, flushing a non-empty current row.
    pub fn build(self) -> (r: ReplyKeyboardMarkup)
        ensures
            r.keyboard@ == self.spec_built_rows(),
            r.resize_keyboard == self.spec_resize(),
            r.one_time_keyboard == self.spec_one_time(),
    {
        let ReplyKeyboardBuilder { mut rows, current_row, resize, one_time } = self;
        if current_row.len() > 0 {
            rows.push(current_row);
        }
        ReplyKeyboardMarkup {
            keyboard: rows,
            resize_keyboard: resize,
            one_time_keyboard: one_time,
        }
    }
}

/// Confirmation keyboard: one row with a yes and a no button whose
/// callback data is the action tagged with the answer.
pub fn confirm(action: &str) -> (r: InlineKeyboardMarkup)
    ensures
        r.inline_keyboard@.len() == 1,
        r.inline_keyboard@[0]@.len() == 2,
        is_callback(r.inline_keyboard@[0]@[0], "\u{2705} Yes"@, action@ + ":yes"@),
        is_callback(r.inline_keyboard@[0]@[1], "\u{274C} No"@, action@ + ":no"@),
{
    let mut yes = action.to_owned();
    yes.append(":yes");
    let mut no = action.to_owned();
    no.append(":no");
    InlineKeyboardBuilder::new().button("\u{2705} Yes", yes.as_str()).button(
        "\u{274C} No",
        no.as_str(),
    ).build()
}

/// Pagination keyboard: one row holding a previous-page button when
/// there is a previous page, the position label, and a next-page
/// button when there is a next page.
pub fn pagination(current: usize, total: usize, prefix: &str) -> (r: InlineKeyboardMarkup)
    requires
        current < usize::MAX,
    ensures
        r.inline_keyboard@.len() == 1,
        r.inline_keyboard@[0]@.len() == 1 + (if current > 0 {
            1int
        } else {
            0int
        }) + (if current + 1 < total {
            1int
        } else {
            0int
        }),
        current > 0 ==> is_callback(r.inline_keyboard@[0]@[0], "\u{2B05}\u{FE0F} Prev"@,
            prefix@ + ":page:"@ + spec_dec_nat((current - 1) as nat)),
        ({
            let label_at: int = if current > 0 {
                1
            } else {
                0
            };
            is_callback(r.inline_keyboard@[0]@[label_at], spec_dec_nat((current + 1) as nat)
                + "/"@ + spec_dec_nat(total as nat), prefix@ + ":noop"@)
        }),
        current + 1 < total ==> is_callback(r.inline_keyboard@[0]@.last(),
            "Next \u{27A1}\u{FE0F}"@, prefix@ + ":page:"@ + spec_dec_nat((current + 1) as nat)),
{
    let mut builder = InlineKeyboardBuilder::new();
    if current > 0 {
        let mut data = prefix.to_owned();
        data.append(":page:");
        let page = dec_usize(current - 1);
        data.append(page.as_str());
        builder = builder.button("\u{2B05}\u{FE0F} Prev", data.as_str());
    }
    let mut label = dec_usize(current + 1);
    label.append("/");
    let count = dec_usize(total);
    label.append(count.as_str());
    let mut noop = prefix.to_owned();
    noop.append(":noop");
    builder = builder.button(label.as_str(), noop.as_str());
    if current + 1 < total {
        let mut data = prefix.to_owned();
        data.append(":page:");
        let page = dec_usize(current + 1);
        data.append(page.as_str());
        builder = builder.button("Next \u{27A1}\u{FE0F}", data.as_str());
    }
    builder.build()
}

/// Trading action keyboard: buy and sell for a symbol, then chart
/// and settings.
pub fn trading_actions(symbol: &str) -> (r: InlineKeyboardMarkup)
    ensures
        r.inline_keyboard@.len() == 2,
        r.inline_keyboard@[0]@.len() == 2,
        r.inline_keyboard@[1]@.len() == 2,
        is_callback(r.inline_keyboard@[0]@[0], "\u{1F4C8} Buy "@ + symbol@, "trade:buy:"@
            + symbol@),
        is_callback(r.inline_keyboard@[0]@[1], "\u{1F4C9} Sell "@ + symbol@, "trade:sell:"@
            + symbol@),
        is_callback(r.inline_keyboard@[1]@[0], "\u{1F4CA} View Chart"@, "chart:"@ + symbol@),
        is_callback(r.inline_keyboard@[1]@[1], "\u{2699}\u{FE0F} Settings"@, "settings:open"@),
{
    let mut buy_text = "\u{1F4C8} Buy ".to_owned();
    buy_text.append(symbol);
    let mut buy_data = "trade:buy:".to_owned();
    buy_data.append(symbol);
    let mut sell_text = "\u{1F4C9} Sell ".to_owned();
    sell_text.append(symbol);
    let mut sell_data = "trade:sell:".to_owned();
    sell_data.append(symbol);
    let mut chart_data = "chart:".to_owned();
    chart_data.append(symbol);
    InlineKeyboardBuilder::new().button(buy_text.as_str(), buy_data.as_str()).button(
        sell_text.as_str(),
        sell_data.as_str(),
    ).row().button("\u{1F4CA} View Chart", chart_data.as_str()).button(
        "\u{2699}\u{FE0F} Settings",
        "settings:open",
    ).build()
}

/// Main menu keyboard: dashboard and portfolio, then markets and
/// settings.
pub fn main_menu() -> (r: ReplyKeyboardMarkup)
    ensures
        r.keyboard@.len() == 2,
        r.keyboard@[0]@.len() == 2,
        r.keyboard@[1]@.len() == 2,
        r.keyboard@[0]@[0].text@ == "\u{1F4CA} Dashboard"@,
        r.keyboard@[0]@[1].text@ == "\u{1F4BC} Portfolio"@,
        r.keyboard@[1]@[0].text@ == "\u{1F4C8} Markets"@,
        r.keyboard@[1]@[1].text@ == "\u{2699}\u{FE0F} Settings"@,
        r.resize_keyboard,
        !r.one_time_keyboard,
{
    ReplyKeyboardBuilder::new().button("\u{1F4CA} Dashboard").button(
        "\u{1F4BC} Portfolio",
    ).row().button("\u{1F4C8} Markets").button("\u{2699}\u{FE0F} Settings").build()
}

} // verus!
