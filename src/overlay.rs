//! The dot-navigation overlay: one dot per URL, the shown one marked
//! active, each dot asking the controller to advance to its entry.
use vstd::prelude::*;

verus! {

/// Styles and the opening of the list container.
pub const OVERLAY_HEAD: &'static str = r##"
        <style>
        #url-list .pie-container {
            width: 14px;
            height: 14px;
            position: absolute;
            top: 0;
            left: 0;
            display: flex;
            align-items: center;
            justify-content: center;
            font-family: Arial, sans-serif;
            font-size: 1em;
            font-weight: bold;
            pointer-events: none;
        }
        #url-list {
            display: flex;
            flex-direction: column;
            gap: 8px;
            overflow: visible;
        }
        #url-list .url-dot-container {
            position: relative;
            display: flex;
            align-items: center;
            height: 20px;
        }
        #url-list .url-dot {
            width: 14px;
            height: 14px;
            background: #fff;
            border-radius: 50%;
            display: inline-block;
            cursor: pointer;
            border: 2px solid #2196f3;
            transition: box-shadow 0.2s;
            position: relative;
            z-index: 1;
            flex-shrink: 0;
        }
        #url-list .url-dot-container .url-tooltip {
            max-width: 260px;
            color: #fff;
            background: rgba(0, 0, 0, 0.5);
            text-align: left;
            border-radius: 4px;
            padding: 6px 10px;
            margin-left: 12px;
            white-space: pre-line;
            font-size: 13px;
            opacity: 0;
            visibility: hidden;
            transition: opacity 0.2s, visibility 0.2s;
            position: relative;
            left: 0;
            top: 0;
            pointer-events: none;
            z-index: 2;
            display: inline-block;
            word-break: break-all;
        }
        #url-list .url-dot:hover + .url-tooltip,
        #url-list .url-dot:focus + .url-tooltip {
            opacity: 1;
            visibility: visible;
        }
        #url-list .url-dot:hover {
            box-shadow: 0 0 0 3px #2196f3aa;
        }
        </style>
        <div id="url-list" style='position:fixed;top:0;left:0;padding:8px;z-index:9999;font-size:14px;max-width:300px;'>
    "##;

/// The close of the list container.
pub const OVERLAY_TAIL: &'static str = "</div>";

pub const ENTRY_OPEN: &'static str = "<div class=\"url-dot-container\">\n    <a href=\"#\" class=\"url-dot ";

/// The class that marks the dot of the entry shown.
pub const ACTIVE_CLASS: &'static str = "active-dot";

pub const ENTRY_ONCLICK: &'static str = "\" tabindex=\"0\" onclick=\"window.__TAURI_INTERNALS__.invoke('advance_to', { index: ";

pub const ENTRY_ONCLICK_END: &'static str = ", endTime: 0 }); return false;\">\n        ";

/// The countdown pie drawn inside the active dot.
pub const ACTIVE_PIE: &'static str = r##"<span class="pie-container">
                    <svg width="14" height="14">
                        <circle cx="7" cy="7" r="6" stroke="#21f623" stroke-width="1.5" fill="none"/>
                        <path id="pie-fill-active" fill="#21f623" stroke="none"/>
                    </svg>
                </span>"##;

pub const ENTRY_TOOLTIP: &'static str = "\n    </a>\n    <span class=\"url-tooltip\">";

pub const ENTRY_CLOSE: &'static str = "</span>\n</div>";

pub open spec fn digit_char(d: int) -> char {
    if d == 0 {
        '0'
    } else if d == 1 {
        '1'
    } else if d == 2 {
        '2'
    } else if d == 3 {
        '3'
    } else if d == 4 {
        '4'
    } else if d == 5 {
        '5'
    } else if d == 6 {
        '6'
    } else if d == 7 {
        '7'
    } else if d == 8 {
        '8'
    } else {
        '9'
    }
}

/// The decimal digits of `n`, most significant first.
pub open spec fn decimal(n: nat) -> Seq<char>
    decreases n,
{
    if n < 10 {
        seq![digit_char(n as int)]
    } else {
        decimal(n / 10).push(digit_char((n % 10) as int))
    }
}

/// The markup of the dot for entry `index`, showing `url` in its tooltip.
pub open spec fn entry_markup(index: nat, url: Seq<char>, active: bool) -> Seq<char> {
    ENTRY_OPEN@ + (if active {
        ACTIVE_CLASS@
    } else {
        Seq::empty()
    }) + ENTRY_ONCLICK@ + decimal(index) + ENTRY_ONCLICK_END@ + (if active {
        ACTIVE_PIE@
    } else {
        Seq::empty()
    }) + ENTRY_TOOLTIP@ + url + ENTRY_CLOSE@
}

/// The markup of the dots of the first `n` entries.
pub open spec fn entries_markup(urls: Seq<Seq<char>>, current: int, n: nat) -> Seq<char>
    decreases n,
{
    if n == 0 {
        Seq::empty()
    } else {
        entries_markup(urls, current, (n - 1) as nat) + entry_markup(
            (n - 1) as nat,
            urls[n - 1],
            n - 1 == current,
        )
    }
}

/// The whole overlay for `urls` with entry `current` shown.
pub open spec fn overlay_markup(urls: Seq<Seq<char>>, current: int) -> Seq<char> {
    OVERLAY_HEAD@ + entries_markup(urls, current, urls.len()) + OVERLAY_TAIL@
}

fn digit_text(d: usize) -> (r: &'static str)
    requires
        d < 10,
    ensures
        r@ == seq![digit_char(d as int)],
{
    if d == 0 {
        proof { reveal_strlit("0"); }
        "0"
    } else if d == 1 {
        proof { reveal_strlit("1"); }
        "1"
    } else if d == 2 {
        proof { reveal_strlit("2"); }
        "2"
    } else if d == 3 {
        proof { reveal_strlit("3"); }
        "3"
    } else if d == 4 {
        proof { reveal_strlit("4"); }
        "4"
    } else if d == 5 {
        proof { reveal_strlit("5"); }
        "5"
    } else if d == 6 {
        proof { reveal_strlit("6"); }
        "6"
    } else if d == 7 {
        proof { reveal_strlit("7"); }
        "7"
    } else if d == 8 {
        proof { reveal_strlit("8"); }
        "8"
    } else {
        proof { reveal_strlit("9"); }
        "9"
    }
}

/// `n` written in decimal.
pub fn decimal_string(n: usize) -> (r: String)
    ensures
        r@ == decimal(n as nat),
    decreases n,
{
    if n < 10 {
        String::from_str(digit_text(n))
    } else {
        let mut s = decimal_string(n / 10);
        s.append(digit_text(n % 10));
        s
    }
}

/// The markup of the dot for entry `index`.
pub fn render_entry(index: usize, url: &str, active: bool) -> (r: String)
    ensures
        r@ == entry_markup(index as nat, url@, active),
{
    let mut e = String::from_str(ENTRY_OPEN);
    if active {
        e.append(ACTIVE_CLASS);
    }
    e.append(ENTRY_ONCLICK);
    let digits = decimal_string(index);
    e.append(digits.as_str());
    e.append(ENTRY_ONCLICK_END);
    if active {
        e.append(ACTIVE_PIE);
    }
    e.append(ENTRY_TOOLTIP);
    e.append(url);
    e.append(ENTRY_CLOSE);
    assert(e@ =~= entry_markup(index as nat, url@, active));
    e
}

/// The overlay for `urls` with entry `current` shown; no dot is marked
/// active where `current` is out of range.
pub fn render_overlay(urls: &Vec<String>, current: usize) -> (r: String)
    ensures
        r@ == overlay_markup(urls@.map_values(|s: String| s@), current as int),
{
    let ghost views = urls@.map_values(|s: String| s@);
    let mut out = String::from_str(OVERLAY_HEAD);
    let mut i: usize = 0;
    while i < urls.len()
        invariant
            i <= urls@.len(),
            views == urls@.map_values(|s: String| s@),
            out@ == OVERLAY_HEAD@ + entries_markup(views, current as int, i as nat),
        decreases urls@.len() - i,
    {
        let e = render_entry(i, urls[i].as_str(), i == current);
        proof {
            assert(views[i as int] == urls@[i as int]@);
        }
        out.append(e.as_str());
        assert(entries_markup(views, current as int, (i + 1) as nat) == entries_markup(
            views,
            current as int,
            i as nat,
        ) + entry_markup(i as nat, views[i as int], i == current));
        assert(out@ =~= OVERLAY_HEAD@ + entries_markup(views, current as int, (i + 1) as nat));
        i = i + 1;
    }
    out.append(OVERLAY_TAIL);
    assert(out@ =~= overlay_markup(views, current as int));
    out
}

} // verus!
