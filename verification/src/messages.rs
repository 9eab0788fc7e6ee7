//! User-facing status and notice texts composed in Rust, per UI language.
//! Every text is an exhaustive match on [`Language`]; Japanese has no
//! grammatical plural, so counts are written as plain numbers.
use crate::text::{decimal, push_decimal};
use crate::open_book::{NoticesContent, SkippedDetail};
use crate::view_modes::{Language, ReadingDirection, SpreadMode};
use vstd::prelude::*;

verus! {

/// The no-source status line.
pub open spec fn msg_no_folder_opened_spec(lang: Language) -> Seq<char> {
    match lang {
        Language::En => "No folder opened"@,
        Language::Ja => "フォルダーが開かれていません"@,
    }
}

/// The no-image status line.
pub open spec fn msg_no_images_spec(lang: Language) -> Seq<char> {
    match lang {
        Language::En => "Folder contains no images"@,
        Language::Ja => "フォルダーに画像がありません"@,
    }
}

/// The spread-mode label.
pub open spec fn msg_spread_label_spec(lang: Language, mode: SpreadMode) -> Seq<char> {
    match (lang, mode) {
        (Language::En, SpreadMode::Single) => "single"@,
        (Language::En, SpreadMode::Double) => "double"@,
        (Language::En, SpreadMode::Auto) => "auto"@,
        (Language::Ja, SpreadMode::Single) => "単ページ"@,
        (Language::Ja, SpreadMode::Double) => "見開き"@,
        (Language::Ja, SpreadMode::Auto) => "自動"@,
    }
}

/// The reading-direction label.
pub open spec fn msg_direction_label_spec(lang: Language, dir: ReadingDirection) -> Seq<char> {
    match (lang, dir) {
        (Language::En, ReadingDirection::Ltr) => "LTR"@,
        (Language::En, ReadingDirection::Rtl) => "RTL"@,
        (Language::Ja, ReadingDirection::Ltr) => "左→右"@,
        (Language::Ja, ReadingDirection::Rtl) => "右→左"@,
    }
}

/// The archive suffix of the skipped-entries notice.
pub open spec fn msg_skipped_detail_archive_spec(lang: Language) -> Seq<char> {
    match lang {
        Language::En => " (zip-slip or oversized)"@,
        Language::Ja => "（zip-slip または上限超過）"@,
    }
}

/// The failed-settings-save notice for error text `e`.
pub open spec fn msg_failed_save_settings_spec(lang: Language, e: Seq<char>) -> Seq<char> {
    match lang {
        Language::En => "Failed to save settings: "@ + e + ""@,
        Language::Ja => "設定を保存できませんでした: "@ + e + ""@,
    }
}

/// The failed-library-save notice for error text `e`.
pub open spec fn msg_failed_save_library_spec(lang: Language, e: Seq<char>) -> Seq<char> {
    match lang {
        Language::En => "Failed to save library: "@ + e + ""@,
        Language::Ja => "ライブラリを保存できませんでした: "@ + e + ""@,
    }
}

/// `pre`, then `mid`, then `post`.
fn framed(pre: &str, mid: &str, post: &str) -> (s: String)
    ensures
        s@ == pre@ + mid@ + post@,
{
    let mut s = String::from_str(pre);
    s.append(mid);
    s.append(post);
    s
}

/// `pre`, then `n` in decimal, then `post`.
fn framed_count(pre: &str, n: usize, post: &str) -> (s: String)
    ensures
        s@ == pre@ + decimal(n as nat) + post@,
{
    let mut s = String::from_str(pre);
    push_decimal(&mut s, n as u64);
    s.append(post);
    s
}

/// Status line when no source has been opened yet.
pub fn msg_no_folder_opened(lang: Language) -> (s: &'static str)
    ensures
        s@ == match lang {
            Language::En => "No folder opened"@,
            Language::Ja => "フォルダーが開かれていません"@,
        },
{
    match lang {
        Language::En => "No folder opened",
        Language::Ja => "フォルダーが開かれていません",
    }
}

/// Status line when the opened source holds no displayable image.
pub fn msg_no_images(lang: Language) -> (s: &'static str)
    ensures
        s@ == match lang {
            Language::En => "Folder contains no images"@,
            Language::Ja => "フォルダーに画像がありません"@,
        },
{
    match lang {
        Language::En => "Folder contains no images",
        Language::Ja => "フォルダーに画像がありません",
    }
}

/// Compact spread-mode label of the status line.
pub fn msg_spread_label(lang: Language, mode: SpreadMode) -> (s: &'static str)
    ensures
        s@ == match (lang, mode) {
            (Language::En, SpreadMode::Single) => "single"@,
            (Language::En, SpreadMode::Double) => "double"@,
            (Language::En, SpreadMode::Auto) => "auto"@,
            (Language::Ja, SpreadMode::Single) => "単ページ"@,
            (Language::Ja, SpreadMode::Double) => "見開き"@,
            (Language::Ja, SpreadMode::Auto) => "自動"@,
        },
{
    match (lang, mode) {
        (Language::En, SpreadMode::Single) => "single",
        (Language::En, SpreadMode::Double) => "double",
        (Language::En, SpreadMode::Auto) => "auto",
        (Language::Ja, SpreadMode::Single) => "単ページ",
        (Language::Ja, SpreadMode::Double) => "見開き",
        (Language::Ja, SpreadMode::Auto) => "自動",
    }
}

/// Compact reading-direction label of the status line.
pub fn msg_direction_label(lang: Language, dir: ReadingDirection) -> (s: &'static str)
    ensures
        s@ == match (lang, dir) {
            (Language::En, ReadingDirection::Ltr) => "LTR"@,
            (Language::En, ReadingDirection::Rtl) => "RTL"@,
            (Language::Ja, ReadingDirection::Ltr) => "左→右"@,
            (Language::Ja, ReadingDirection::Rtl) => "右→左"@,
        },
{
    match (lang, dir) {
        (Language::En, ReadingDirection::Ltr) => "LTR",
        (Language::En, ReadingDirection::Rtl) => "RTL",
        (Language::Ja, ReadingDirection::Ltr) => "左→右",
        (Language::Ja, ReadingDirection::Rtl) => "右→左",
    }
}

/// Status line for a failed open; `e` is the rendered error.
pub fn msg_open_error(lang: Language, e: &str) -> (s: String)
    ensures
        s@ == match lang {
            Language::En => "Error: "@ + e@ + ""@,
            Language::Ja => "エラー: "@ + e@ + ""@,
        },
{
    match lang {
        Language::En => framed("Error: ", e, ""),
        Language::Ja => framed("エラー: ", e, ""),
    }
}

/// The archive skip-reason suffix of the skipped-entries notice.
pub fn msg_skipped_detail_archive(lang: Language) -> (s: &'static str)
    ensures
        s@ == match lang {
            Language::En => " (zip-slip or oversized)"@,
            Language::Ja => "（zip-slip または上限超過）"@,
        },
{
    match lang {
        Language::En => " (zip-slip or oversized)",
        Language::Ja => "（zip-slip または上限超過）",
    }
}

/// Notice for entries skipped while opening a source; `detail` is empty or
/// the archive suffix.
pub fn msg_entries_skipped(lang: Language, n: usize, detail: &str) -> (s: String)
    ensures
        s@ == match lang {
            Language::En => decimal(n as nat) + " entries skipped"@ + detail@,
            Language::Ja => decimal(n as nat) + " 件のエントリをスキップしました"@ + detail@,
        },
{
    let mut s = String::new();
    push_decimal(&mut s, n as u64);
    match lang {
        Language::En => s.append(" entries skipped"),
        Language::Ja => s.append(" 件のエントリをスキップしました"),
    }
    s.append(detail);
    s
}

/// Notice when the settings save of an open failed.
pub fn msg_failed_save_settings(lang: Language, e: &str) -> (s: String)
    ensures
        s@ == match lang {
            Language::En => "Failed to save settings: "@ + e@ + ""@,
            Language::Ja => "設定を保存できませんでした: "@ + e@ + ""@,
        },
{
    match lang {
        Language::En => framed("Failed to save settings: ", e, ""),
        Language::Ja => framed("設定を保存できませんでした: ", e, ""),
    }
}

/// Notice when the library save of an open failed.
pub fn msg_failed_save_library(lang: Language, e: &str) -> (s: String)
    ensures
        s@ == match lang {
            Language::En => "Failed to save library: "@ + e@ + ""@,
            Language::Ja => "ライブラリを保存できませんでした: "@ + e@ + ""@,
        },
{
    match lang {
        Language::En => framed("Failed to save library: ", e, ""),
        Language::Ja => framed("ライブラリを保存できませんでした: ", e, ""),
    }
}

/// Status line when saving settings from the dialog failed.
pub fn msg_could_not_save_settings(lang: Language, e: &str) -> (s: String)
    ensures
        s@ == match lang {
            Language::En => "Could not save settings: "@ + e@ + ""@,
            Language::Ja => "設定を保存できませんでした: "@ + e@ + ""@,
        },
{
    match lang {
        Language::En => framed("Could not save settings: ", e, ""),
        Language::Ja => framed("設定を保存できませんでした: ", e, ""),
    }
}

/// Boot notice when persisted state failed to load; `what` lists the
/// failures and stays untranslated.
pub fn msg_load_failed(lang: Language, what: &str) -> (s: String)
    ensures
        s@ == match lang {
            Language::En => "Could not load "@ + what@ + "; starting fresh."@,
            Language::Ja => ""@ + what@ + " を読み込めませんでした。初期状態で起動します。"@,
        },
{
    match lang {
        Language::En => framed("Could not load ", what, "; starting fresh."),
        Language::Ja => framed("", what, " を読み込めませんでした。初期状態で起動します。"),
    }
}

/// Marker appended to the status line when the trailing page of a spread
/// failed to decode; `page` is 1-based.
pub fn msg_page_unavailable(lang: Language, page: usize) -> (s: String)
    ensures
        s@ == match lang {
            Language::En => "(page "@ + decimal(page as nat) + " unavailable)"@,
            Language::Ja => "（ページ "@ + decimal(page as nat) + " は表示できません）"@,
        },
{
    match lang {
        Language::En => framed_count("(page ", page, " unavailable)"),
        Language::Ja => framed_count("（ページ ", page, " は表示できません）"),
    }
}

/// Status line when the leading page of the spread failed to decode.
pub fn msg_decode_error(lang: Language, e: &str) -> (s: String)
    ensures
        s@ == match lang {
            Language::En => "Decode error: "@ + e@ + ""@,
            Language::Ja => "デコードエラー: "@ + e@ + ""@,
        },
{
    match lang {
        Language::En => framed("Decode error: ", e, ""),
        Language::Ja => framed("デコードエラー: ", e, ""),
    }
}

/// Status line when every picked path was already in the library.
pub fn msg_already_in_library(lang: Language) -> (s: &'static str)
    ensures
        s@ == match lang {
            Language::En => "Already in library \u{2014} no new books added."@,
            Language::Ja => "すでにライブラリにあります \u{2014} 新しい本は追加されませんでした。"@,
        },
{
    match lang {
        Language::En => "Already in library \u{2014} no new books added.",
        Language::Ja => "すでにライブラリにあります \u{2014} 新しい本は追加されませんでした。",
    }
}

/// Status line after a successful add.
pub fn msg_added_books(lang: Language, n: usize) -> (s: String)
    ensures
        s@ == match lang {
            Language::En => "Added "@ + decimal(n as nat) + " book(s)"@,
            Language::Ja => ""@ + decimal(n as nat) + " 冊の本を追加しました"@,
        },
{
    match lang {
        Language::En => framed_count("Added ", n, " book(s)"),
        Language::Ja => framed_count("", n, " 冊の本を追加しました"),
    }
}

/// Status line when books were added but the library save failed.
pub fn msg_added_books_save_failed(lang: Language, n: usize, e: &str) -> (s: String)
    ensures
        s@ == match lang {
            Language::En => "Added "@ + decimal(n as nat) + " book(s), but could not save library: "@ + e@,
            Language::Ja => ""@ + decimal(n as nat) + " 冊の本を追加しましたが、ライブラリを保存できませんでした: "@ + e@,
        },
{
    let mut s = match lang {
        Language::En => framed_count("Added ", n, " book(s), but could not save library: "),
        Language::Ja => framed_count("", n, " 冊の本を追加しましたが、ライブラリを保存できませんでした: "),
    };
    s.append(e);
    s
}

/// The English keyboard-shortcuts reference.
pub const KEY_BINDINGS_HELP_EN: &'static str = "\
Navigation:
  Space = next page    Backspace = previous page
  Arrows follow the reading direction (LTR: \u{2192} next; RTL: \u{2190} next)

Modes:
  D = spread (single \u{2192} double \u{2192} auto)
  R = reading direction (LTR / RTL)
  C = cover layout (standalone / paired)

Zoom & fit:
  + / - = zoom in / out    0 = reset view    1 = actual size    f = cycle fit

View:
  T = toggle thumbnail strip

Library:
  Up = return to the library";

/// The Japanese keyboard-shortcuts reference.
pub const KEY_BINDINGS_HELP_JA: &'static str = "\
ナビゲーション:
  Space = 次のページ    Backspace = 前のページ
  矢印キーは読む方向に従います (左から右: \u{2192} が次 / 右から左: \u{2190} が次)

モード:
  D = ページ表示 (単ページ \u{2192} 見開き \u{2192} 自動)
  R = 読む方向 (左から右 / 右から左)
  C = 表紙レイアウト (単独 / ペア)

ズームとフィット:
  + / - = ズームイン / アウト    0 = 表示リセット    1 = 原寸    f = フィット切替

表示:
  T = サムネイル一覧の表示切替

ライブラリ:
  Up = ライブラリに戻る";

/// The keyboard-shortcuts reference shown by the shortcuts overlay.
pub fn msg_key_bindings_help(lang: Language) -> (s: &'static str)
    ensures
        s@ == match lang {
            Language::En => KEY_BINDINGS_HELP_EN@,
            Language::Ja => KEY_BINDINGS_HELP_JA@,
        },
{
    match lang {
        Language::En => KEY_BINDINGS_HELP_EN,
        Language::Ja => KEY_BINDINGS_HELP_JA,
    }
}

/// What the viewer's status line reports.
#[derive(Clone, Copy, PartialEq, Eq, Debug, Structural)]
pub enum StatusKind {
    /// No source has been opened.
    NoFolder,
    /// The opened source has no displayable image.
    NoImages,
    /// Pages are shown; the line carries the page counter.
    Pages,
}

/// The viewer's status line: the no-source or no-image message, or the page
/// counter `pages` followed by the spread mode and reading direction in
/// brackets.
pub fn format_status(lang: Language, kind: StatusKind, pages: &str, spread: SpreadMode, direction: ReadingDirection) -> (s: String)
    ensures
        s@ == match kind {
            StatusKind::NoFolder => msg_no_folder_opened_spec(lang),
            StatusKind::NoImages => msg_no_images_spec(lang),
            StatusKind::Pages => pages@ + "  ["@ + msg_spread_label_spec(lang, spread) + " \u{00b7} "@
                + msg_direction_label_spec(lang, direction) + "]"@,
        },
{
    match kind {
        StatusKind::NoFolder => String::from_str(msg_no_folder_opened(lang)),
        StatusKind::NoImages => String::from_str(msg_no_images(lang)),
        StatusKind::Pages => {
            let mut s = String::from_str(pages);
            s.append("  [");
            s.append(msg_spread_label(lang, spread));
            s.append(" \u{00b7} ");
            s.append(msg_direction_label(lang, direction));
            s.append("]");
            s
        },
    }
}

/// The notices of an open, in order: skipped entries (with the archive
/// qualifier when it applies), then a failed settings save, then a failed
/// library save.
pub fn format_notices(lang: Language, content: &NoticesContent) -> (v: Vec<String>)
    ensures
        v@.map_values(|t: String| t@) == (if content.skipped > 0 {
            seq![decimal(content.skipped as nat) + match lang {
                Language::En => " entries skipped"@,
                Language::Ja => " 件のエントリをスキップしました"@,
            } + match content.skipped_detail {
                SkippedDetail::NoDetail => Seq::<char>::empty(),
                SkippedDetail::Archive => msg_skipped_detail_archive_spec(lang),
            }]
        } else {
            Seq::<Seq<char>>::empty()
        }) + match content.settings_save_err {
            Some(e) => seq![msg_failed_save_settings_spec(lang, e@)],
            None => Seq::<Seq<char>>::empty(),
        } + match content.library_save_err {
            Some(e) => seq![msg_failed_save_library_spec(lang, e@)],
            None => Seq::<Seq<char>>::empty(),
        },
{
    let mut v: Vec<String> = Vec::new();
    let ghost v0 = v@.map_values(|t: String| t@);
    if content.skipped > 0 {
        let detail = match content.skipped_detail {
            SkippedDetail::NoDetail => "",
            SkippedDetail::Archive => msg_skipped_detail_archive(lang),
        };
        proof {
            reveal_strlit("");
        }
        v.push(msg_entries_skipped(lang, content.skipped, detail));
    }
    let ghost v1 = v@;
    match &content.settings_save_err {
        Some(e) => v.push(msg_failed_save_settings(lang, e.as_str())),
        None => {},
    }
    let ghost v2 = v@;
    match &content.library_save_err {
        Some(e) => v.push(msg_failed_save_library(lang, e.as_str())),
        None => {},
    }
    proof {
        let f = |t: String| t@;
        assert(v1.map_values(f) =~= (if content.skipped > 0 {
            seq![decimal(content.skipped as nat) + match lang {
                Language::En => " entries skipped"@,
                Language::Ja => " 件のエントリをスキップしました"@,
            } + match content.skipped_detail {
                SkippedDetail::NoDetail => Seq::<char>::empty(),
                SkippedDetail::Archive => msg_skipped_detail_archive_spec(lang),
            }]
        } else {
            Seq::<Seq<char>>::empty()
        }));
        assert(v2.map_values(f) =~= v1.map_values(f) + match content.settings_save_err {
            Some(e) => seq![msg_failed_save_settings_spec(lang, e@)],
            None => Seq::<Seq<char>>::empty(),
        });
        assert(v@.map_values(f) =~= v2.map_values(f) + match content.library_save_err {
            Some(e) => seq![msg_failed_save_library_spec(lang, e@)],
            None => Seq::<Seq<char>>::empty(),
        });
    }
    v
}

/// The selection toolbar's count label.
#[derive(Clone, Copy, PartialEq, Eq, Debug, Structural)]
pub enum SelectionCount {
    /// Nothing selected: the selection-mode label.
    ModeLabel,
    /// `n` selected, all visible.
    Selected { n: usize },
    /// `n` selected, `m` of them outside the current search.
    SelectedOutside { n: usize, m: usize },
}

/// The count label for `total` selected books of which `visible_selected`
/// are visible: the outside-search form appears only when some selected book
/// is hidden by the search.
pub fn selection_count(total: usize, visible_selected: usize) -> (c: SelectionCount)
    ensures
        c == if total == 0 {
            SelectionCount::ModeLabel
        } else if total > visible_selected {
            SelectionCount::SelectedOutside { n: total, m: (total - visible_selected) as usize }
        } else {
            SelectionCount::Selected { n: total }
        },
{
    if total == 0 {
        SelectionCount::ModeLabel
    } else if total > visible_selected {
        SelectionCount::SelectedOutside { n: total, m: total - visible_selected }
    } else {
        SelectionCount::Selected { n: total }
    }
}

} // verus!
