//! Events as text for a terminal. Markdown is rendered by `termimad`;
//! what it renders depends on the terminal, so every text that holds
//! rendered markdown is stated up to that part.

use vstd::prelude::*;
use crate::agent::error::AgentError;
use crate::agent::events::AgentEvent;
use crate::chat::{ChatMessage, ChatMessageContent};
use crate::json::{json_pretty_text, json_to_string_pretty, JsonValue};
use crate::sys::utc_now_millis;
use crate::text::{
    blank,
    decimal,
    decimal_string,
    is_blank,
    join_lines_from,
    joined_lines,
    lines_of,
    prefixed,
    replace_all,
    split_lines,
    str_eq,
    str_replace,
    to_upper_case,
    upper_case,
};
use crate::tools::{ToolCall, ToolResult};

verus! {

/// A colour by its red, green and blue parts.
pub type Rgb = (u8, u8, u8);

/// The colours in which markdown is rendered: that of paragraphs and
/// that of bold text, each left to the dark default where `None`, and
/// that of code blocks, by its number among the 256 colours of a
/// terminal.
#[derive(Debug, Clone, Copy, PartialEq, Eq)]
pub struct SkinColors {
    pub paragraph: Option<Rgb>,
    pub bold: Option<Rgb>,
    pub code_block: u8,
}

/// The colour of code blocks: dark grey.
pub open spec fn code_grey() -> u8 {
    8
}

/// The colour of code blocks: dark grey.
pub fn code_block_color() -> (r: u8)
    ensures
        r == code_grey(),
{
    8
}

/// `termimad::MadSkin::term_text` on the dark default skin with the given
/// colours, code blocks on the terminal's own background: the markdown
/// rendered for the width of the terminal. Nothing is claimed of the
/// result.
#[verifier::external_body]
fn term_text(colors: SkinColors, markdown: &str) -> (r: String)
{
    let mut skin = termimad::MadSkin::default_dark();
    skin.code_block.set_fgbg(
        termimad::crossterm::style::Color::AnsiValue(colors.code_block),
        termimad::crossterm::style::Color::Reset,
    );
    if let Some((r, g, b)) = colors.paragraph {
        skin.paragraph.set_fg(termimad::rgb(r, g, b));
    }
    if let Some((r, g, b)) = colors.bold {
        skin.bold.set_fg(termimad::rgb(r, g, b));
    }
    skin.term_text(markdown).to_string()
}

/// `termimad::MadSkin::text` without a width, on the same skin: the
/// markdown rendered without wrapping. Nothing is claimed of the result.
#[verifier::external_body]
fn unwrapped_text(colors: SkinColors, markdown: &str) -> (r: String)
{
    let mut skin = termimad::MadSkin::default_dark();
    skin.code_block.set_fgbg(
        termimad::crossterm::style::Color::AnsiValue(colors.code_block),
        termimad::crossterm::style::Color::Reset,
    );
    if let Some((r, g, b)) = colors.paragraph {
        skin.paragraph.set_fg(termimad::rgb(r, g, b));
    }
    if let Some((r, g, b)) = colors.bold {
        skin.bold.set_fg(termimad::rgb(r, g, b));
    }
    skin.text(markdown, None).to_string()
}

/// The colours of ordinary text.
pub open spec fn plain_colors() -> SkinColors {
    SkinColors { paragraph: None, bold: None, code_block: code_grey() }
}

/// The colours of what the user said and of reasoning: grey.
pub open spec fn dim_colors() -> SkinColors {
    SkinColors { paragraph: Some((120u8, 120u8, 120u8)), bold: None, code_block: code_grey() }
}

/// The colours of a failure: red.
pub open spec fn failure_colors() -> SkinColors {
    SkinColors {
        paragraph: Some((255u8, 100u8, 100u8)),
        bold: Some((255u8, 150u8, 150u8)),
        code_block: code_grey(),
    }
}

/// The colours of a success: green.
pub open spec fn success_colors() -> SkinColors {
    SkinColors {
        paragraph: Some((100u8, 255u8, 100u8)),
        bold: Some((150u8, 255u8, 150u8)),
        code_block: code_grey(),
    }
}

impl SkinColors {
    /// The colours of ordinary text.
    pub fn plain() -> (r: Self)
        ensures
            r == plain_colors(),
    {
        SkinColors { paragraph: None, bold: None, code_block: code_block_color() }
    }

    /// The colours of what the user said and of reasoning.
    pub fn dim() -> (r: Self)
        ensures
            r == dim_colors(),
    {
        SkinColors {
            paragraph: Some((120u8, 120u8, 120u8)),
            bold: None,
            code_block: code_block_color(),
        }
    }

    /// The colours of a failure.
    pub fn failure() -> (r: Self)
        ensures
            r == failure_colors(),
    {
        SkinColors {
            paragraph: Some((255u8, 100u8, 100u8)),
            bold: Some((255u8, 150u8, 150u8)),
            code_block: code_block_color(),
        }
    }

    /// The colours of a success.
    pub fn success() -> (r: Self)
        ensures
            r == success_colors(),
    {
        SkinColors {
            paragraph: Some((100u8, 255u8, 100u8)),
            bold: Some((150u8, 255u8, 150u8)),
            code_block: code_block_color(),
        }
    }
}

/// The working directory as a sequence of characters.
pub open spec fn dir_view(current_dir: Option<&str>) -> Option<Seq<char>> {
    match current_dir {
        Some(dir) => Some(dir@),
        None => None,
    }
}

/// The text with its first character in upper case.
pub open spec fn capitalized(s: Seq<char>) -> Seq<char> {
    if s.len() == 0 {
        s
    } else {
        upper_case(s[0]) + s.skip(1)
    }
}

/// A path as it is shown: without the working directory in front,
/// wherever it occurs. Without a working directory the path is shown whole.
pub open spec fn shown_path(path: Seq<char>, current_dir: Option<Seq<char>>) -> Seq<char> {
    match current_dir {
        Some(dir) => replace_all(path, dir + "/"@, Seq::empty()),
        None => path,
    }
}

/// The parameter names looked for first, by tool.
pub open spec fn preferred_names(tool_name: Seq<char>) -> Seq<Seq<char>> {
    if tool_name == "read"@ || tool_name == "write"@ || tool_name == "edit"@ || tool_name
        == "multiedit"@ {
        seq!["file_path"@, "path"@]
    } else if tool_name == "ls"@ || tool_name == "glob"@ {
        seq!["path"@, "pattern"@]
    } else if tool_name == "find"@ || tool_name == "grep"@ {
        seq!["pattern"@, "path"@]
    } else if tool_name == "bash"@ {
        seq!["command"@]
    } else {
        seq!["path"@, "file_path"@, "pattern"@, "command"@, "query"@, "input"@]
    }
}

/// The position of the first member under the name.
pub open spec fn member_position(members: Seq<(String, JsonValue)>, name: Seq<char>) -> Option<
    int,
> {
    crate::text::key_position(members, name)
}

/// The text of the member under the name, if there is such a member and it
/// is a string.
pub open spec fn string_member(members: Seq<(String, JsonValue)>, name: Seq<char>) -> Option<
    Seq<char>,
> {
    match member_position(members, name) {
        Some(i) => match members[i].1 {
            JsonValue::String(s) => Some(s@),
            _ => None,
        },
        None => None,
    }
}

/// The first of the names, from `from` on, under which the members hold
/// a string, with that string.
pub open spec fn first_preferred(
    members: Seq<(String, JsonValue)>,
    names: Seq<Seq<char>>,
    from: int,
) -> Option<(Seq<char>, Seq<char>)>
    decreases names.len() - from,
{
    if from < 0 || from >= names.len() {
        None
    } else {
        match string_member(members, names[from]) {
            Some(value) => Some((names[from], value)),
            None => first_preferred(members, names, from + 1),
        }
    }
}

/// The first member, from `from` on, that is a string, with its name.
pub open spec fn first_string(members: Seq<(String, JsonValue)>, from: int) -> Option<
    (Seq<char>, Seq<char>),
>
    decreases members.len() - from,
{
    if from < 0 || from >= members.len() {
        None
    } else {
        match members[from].1 {
            JsonValue::String(s) => Some((members[from].0@, s@)),
            _ => first_string(members, from + 1),
        }
    }
}

/// The parameter that tells most about a call, with its value as it
/// stands: the first of the tool's preferred names under which the
/// arguments hold a string, else the first string among the arguments.
/// Arguments that are no object have none.
pub open spec fn primary_param(args: JsonValue, tool_name: Seq<char>) -> Option<
    (Seq<char>, Seq<char>),
> {
    match args {
        JsonValue::Object(members) => match first_preferred(
            members@,
            preferred_names(tool_name),
            0,
        ) {
            Some(found) => Some(found),
            None => first_string(members@, 0),
        },
        _ => None,
    }
}

/// One parameter as text: a string, a number and a truth value as they
/// are, `null` with a line feed, anything else as indented JSON.
pub open spec fn parameter_text(param: JsonValue) -> Seq<char> {
    match param {
        JsonValue::String(s) => s@,
        JsonValue::Number(n) => n@,
        JsonValue::Bool(b) => if b {
            "true"@
        } else {
            "false"@
        },
        JsonValue::Null => "null\n"@,
        other => json_pretty_text(other.deep_view()),
    }
}

/// The members from `from` on, one per line as `name: value`, the
/// member called `skip` left out.
pub open spec fn member_lines(
    members: Seq<(String, JsonValue)>,
    skip: Option<Seq<char>>,
    from: int,
) -> Seq<char>
    decreases members.len() - from,
{
    if from < 0 || from >= members.len() {
        Seq::empty()
    } else {
        (if skip == Some(members[from].0@) {
            Seq::empty()
        } else {
            members[from].0@ + ": "@ + parameter_text(members[from].1) + "\n"@
        }) + member_lines(members, skip, from + 1)
    }
}

/// A call as text for the user who is asked to allow it: the preview if
/// there is one; else the arguments one per line, without the primary
/// parameter.
pub open spec fn toolcall_text(call: ToolCall, preview: Option<ToolResult>) -> Seq<char> {
    match preview {
        Some(result) => result.deep_view().text(),
        None => match call.parameters {
            JsonValue::Object(members) => member_lines(
                members@,
                match primary_param(call.parameters, call.tool_name@) {
                    Some((name, _)) => Some(name),
                    None => None,
                },
                0,
            ),
            _ => Seq::empty(),
        },
    }
}

/// The title line of a call: a coloured bullet, the tool's name in bold
/// with a capital, and the primary parameter in brackets if there is one.
pub open spec fn call_title(
    color: Seq<char>,
    bullet: Seq<char>,
    call: ToolCall,
    current_dir: Option<Seq<char>>,
) -> Seq<char> {
    color + bullet + "\x1b[0m \x1b[1m"@ + capitalized(call.tool_name@) + "\x1b[0m"@ + (
    match primary_param(call.parameters, call.tool_name@) {
        Some((_, value)) => "("@ + shown_path(value, current_dir) + ")"@,
        None => Seq::empty(),
    })
}

/// The number of whole half seconds between the epoch and the time,
/// counted towards the epoch.
pub open spec fn half_seconds(now_millis: i64) -> int {
    if now_millis >= 0 {
        now_millis as int / 500
    } else {
        (-(now_millis as int)) / 500
    }
}

/// The bullet of a running call at the given time: it blinks twice a second.
pub open spec fn running_bullet(now_millis: i64) -> Seq<char> {
    if half_seconds(now_millis) % 2 == 0 {
        "\u{25cf} "@
    } else {
        "\u{25cb} "@
    }
}

/// Whether the output of the tool is shown below its result.
pub open spec fn shows_preview(tool_name: Seq<char>) -> bool {
    tool_name == "ls"@ || tool_name == "bash"@ || tool_name == "edit"@ || tool_name
        == "multiedit"@ || tool_name == "find"@ || tool_name == "todo_read"@ || tool_name
        == "todo_write"@
}

/// The lines from `from` up to `upto`, each indented by six spaces and
/// ended by a line feed.
pub open spec fn indented(lines: Seq<Seq<char>>, from: int, upto: int) -> Seq<char>
    decreases upto - from,
{
    if from < 0 || from >= upto || from >= lines.len() {
        Seq::empty()
    } else {
        "      "@ + lines[from] + "\n"@ + indented(lines, from + 1, upto)
    }
}

/// The markdown that shows the first lines of an output, with a note of
/// how many lines follow; `None` where no line is shown.
pub open spec fn preview_markdown(output: Seq<char>, max_preview_lines: nat) -> Option<Seq<char>> {
    let lines = lines_of(output);
    if lines.len() == 0 || max_preview_lines == 0 {
        None
    } else {
        Some(
            "\n"@ + indented(lines, 0, max_preview_lines as int) + (if lines.len()
                > max_preview_lines {
                "      ... "@ + decimal((lines.len() - max_preview_lines) as nat)
                    + " more lines\n"@
            } else {
                Seq::empty()
            }),
        )
    }
}

/// The length of the text in bytes of UTF-8.
pub open spec fn byte_length(s: Seq<char>) -> usize {
    vstd::utf8::encode_utf8(s).len() as usize
}

/// The line below the title that sums a result up.
pub open spec fn result_summary(result: ToolResult) -> Seq<char> {
    match result {
        ToolResult::Success { output, .. } => if blank(output@) {
            "  \u{23bf} \x1b[1mCompleted\x1b[0m"@
        } else if lines_of(output@).len() == 1 {
            "  \u{23bf} \x1b[1m"@ + decimal(byte_length(output@) as nat) + "\x1b[0m chars"@
        } else {
            "  \u{23bf} \x1b[1m"@ + decimal(lines_of(output@).len()) + "\x1b[0m lines, \x1b[1m"@
                + decimal(byte_length(output@) as nat) + "\x1b[0m chars"@
        },
        ToolResult::Error { error, .. } => "  \u{23bf} \x1b[2;31mError: "@ + error@ + "\x1b[0m"@,
        ToolResult::Denied =>
            "  \u{23bf} \x1b[2;31mDenied: The tool call was rejected by the user\x1b[0m"@,
    }
}

/// The markdown rendered below a result, if any: the first lines of the
/// output of a success that is not blank, for the tools whose output is
/// shown.
pub open spec fn result_preview(call: ToolCall, result: ToolResult, max_preview_lines: nat)
    -> Option<Seq<char>> {
    match result {
        ToolResult::Success { output, .. } => if !blank(output@) && shows_preview(
            call.tool_name@,
        ) {
            preview_markdown(output@, max_preview_lines)
        } else {
            None
        },
        _ => None,
    }
}

/// A result as text: the title in green or red, the summary, and the
/// rendered preview where there is one.
pub open spec fn tool_result_text(
    call: ToolCall,
    result: ToolResult,
    current_dir: Option<Seq<char>>,
    max_preview_lines: nat,
    rendered: Seq<char>,
) -> Seq<char> {
    call_title(
        if result is Success {
            "\x1b[32m"@
        } else {
            "\x1b[31m"@
        },
        "\u{25cf}"@,
        call,
        current_dir,
    ) + "\n"@ + result_summary(result) + (if result_preview(call, result, max_preview_lines)
        is Some {
        rendered
    } else {
        Seq::empty()
    })
}

/// Whether the content of an assistant's message shows nothing: there is
/// none, or it is a blank text.
pub open spec fn content_empty(content: Option<ChatMessageContent>) -> bool {
    match content {
        None => true,
        Some(ChatMessageContent::Text(t)) => blank(t@),
        Some(_) => false,
    }
}

/// Whether the content of an assistant's message is a text to show.
pub open spec fn content_shown(content: Option<ChatMessageContent>) -> bool {
    content matches Some(ChatMessageContent::Text(t)) && !blank(t@)
}

/// Whether the reasoning of an assistant's message is a text to show.
pub open spec fn reasoning_shown(reasoning: Option<String>) -> bool {
    reasoning matches Some(r) && !blank(r@)
}

/// A thought as text: the reasoning, dimmed, then the content, each
/// behind its mark; the failure of the brain in red. `reasoning`,
/// `content` and `failure` are the rendered parts.
pub open spec fn thinking_text(
    thought: Result<ChatMessage, AgentError>,
    reasoning: Seq<char>,
    content: Seq<char>,
    failure: Seq<char>,
) -> Option<Seq<char>> {
    match thought {
        Ok(ChatMessage::Assistant { content: c, reasoning_content: r, .. }) => {
            let first = "\x1b[2m\u{273b} "@ + reasoning + "\x1b[0m"@;
            let second = "\u{25cf} "@ + content + "\x1b[0m"@;
            if reasoning_shown(r) && content_shown(c) {
                Some(first + "\n"@ + second)
            } else if reasoning_shown(r) {
                Some(first)
            } else if content_shown(c) {
                Some(second)
            } else {
                None
            }
        },
        Ok(_) => None,
        Err(_) => Some(failure),
    }
}

/// The markdown of a brain's failure.
pub open spec fn failure_markdown(error: AgentError) -> Seq<char> {
    "\u{25cf} **Error:** "@ + error.deep_view().text()
}

/// The lines, each behind two spaces and ended by a line feed.
pub open spec fn nested(lines: Seq<Seq<char>>, from: int) -> Seq<char>
    decreases lines.len() - from,
{
    if from < 0 || from >= lines.len() {
        Seq::empty()
    } else {
        "  "@ + lines[from] + "\n"@ + nested(lines, from + 1)
    }
}

/// What the user said, as text: behind a dimmed `>`. One line is
/// rendered whole; of several the first is shown as it is and the others,
/// unless blank, are rendered below it, behind two spaces.
pub open spec fn user_input_text(input: Seq<char>, rendered: Seq<char>) -> Seq<char> {
    let lines = lines_of(input);
    if lines.len() == 1 {
        "\x1b[2m> \x1b[0m"@ + rendered
    } else if lines.len() == 0 {
        "\x1b[2m> \x1b[0m"@
    } else {
        let head = "\x1b[2m> "@ + lines[0] + "\x1b[0m"@;
        if blank(joined_lines(lines.skip(1))) {
            head
        } else {
            (head + "\n"@ + nested(lines_of(rendered), 0)).drop_last()
        }
    }
}

/// The markdown of an error.
pub open spec fn error_markdown(error: Seq<char>) -> Seq<char> {
    "\u{274c} **Error:** "@ + error
}

/// The markdown of a completion.
pub open spec fn completion_markdown(success: bool, message: Seq<char>) -> Seq<char> {
    if success {
        "\u{2705} **Completed:** "@ + message
    } else {
        "\u{274c} **Failed:** "@ + message
    }
}

/// Turns events into text for a terminal.
#[derive(Debug, PartialEq)]
pub struct PrettyFormatter {
    max_preview_lines: usize,
}

impl PrettyFormatter {
    /// The number of lines of a tool's output that are shown.
    pub closed spec fn preview_lines(&self) -> nat {
        self.max_preview_lines as nat
    }

    /// A formatter that shows ten lines of a tool's output.
    pub fn new() -> (r: Self)
        ensures
            r.preview_lines() == 10,
    {
        Self::with_max_preview_lines(10)
    }

    pub fn with_max_preview_lines(max_preview_lines: usize) -> (r: Self)
        ensures
            r.preview_lines() == max_preview_lines,
    {
        PrettyFormatter { max_preview_lines }
    }

    /// The text with its first character in upper case.
    pub fn capitalize_first(s: &str) -> (r: String)
        ensures
            r@ == capitalized(s@),
    {
        let n = s.unicode_len();
        if n == 0 {
            return String::new();
        }
        let mut out = to_upper_case(s.get_char(0));
        out.append(s.substring_char(1, n));
        assert(s@.subrange(1, n as int) =~= s@.skip(1));
        out
    }

    /// A path as it is shown: without the working directory in front.
    pub fn format_path(path: &str, current_dir: Option<&str>) -> (r: String)
        ensures
            r@ == shown_path(
                path@,
                dir_view(current_dir),
            ),
    {
        match current_dir {
            Some(dir) => {
                let prefix = prefixed(dir, "/");
                proof {
                    reveal_strlit("/");
                    reveal_strlit("");
                    assert(""@ =~= Seq::<char>::empty());
                }
                str_replace(path, prefix.as_str(), "")
            },
            None => path.to_owned(),
        }
    }

    /// The value of a parameter as it is shown.
    pub fn format_param_value(value: &str, current_dir: Option<&str>) -> (r: String)
        ensures
            r@ == shown_path(
                value@,
                dir_view(current_dir),
            ),
    {
        Self::format_path(value, current_dir)
    }

    fn preferred(tool_name: &str) -> (r: Vec<&'static str>)
        ensures
            r.deep_view() == preferred_names(tool_name@),
    {
        let mut names: Vec<&'static str> = Vec::new();
        if str_eq(tool_name, "read") || str_eq(tool_name, "write") || str_eq(tool_name, "edit")
            || str_eq(tool_name, "multiedit") {
            names.push("file_path");
            names.push("path");
        } else if str_eq(tool_name, "ls") || str_eq(tool_name, "glob") {
            names.push("path");
            names.push("pattern");
        } else if str_eq(tool_name, "find") || str_eq(tool_name, "grep") {
            names.push("pattern");
            names.push("path");
        } else if str_eq(tool_name, "bash") {
            names.push("command");
        } else {
            names.push("path");
            names.push("file_path");
            names.push("pattern");
            names.push("command");
            names.push("query");
            names.push("input");
        }
        assert(names.deep_view() =~= preferred_names(tool_name@));
        names
    }

    /// The parameter that tells most about a call, with its value as it
    /// stands in the arguments.
    pub fn primary_param(args: &JsonValue, tool_name: &str) -> (r: Option<(String, String)>)
        ensures
            r.deep_view() == primary_param(*args, tool_name@),
    {
        let members = match args {
            JsonValue::Object(members) => members,
            _ => {
                return None;
            },
        };
        let names = Self::preferred(tool_name);
        let ghost wanted = preferred_names(tool_name@);
        let mut k: usize = 0;
        while k < names.len()
            invariant
                *args == JsonValue::Object(*members),
                wanted == preferred_names(tool_name@),
                k <= names.len(),
                names.deep_view() == wanted,
                first_preferred(members@, wanted, 0) == first_preferred(members@, wanted, k as int),
            decreases names.len() - k,
        {
            assert(wanted[k as int] == names@[k as int]@);
            match crate::text::find_key(members, names[k]) {
                Some(i) => match &members[i].1 {
                    JsonValue::String(s) => {
                        return Some((names[k].to_owned(), s.clone()));
                    },
                    _ => {},
                },
                None => {},
            }
            k += 1;
        }
        let mut i: usize = 0;
        while i < members.len()
            invariant
                *args == JsonValue::Object(*members),
                wanted == preferred_names(tool_name@),
                first_preferred(members@, wanted, 0) is None,
                i <= members.len(),
                first_string(members@, 0) == first_string(members@, i as int),
            decreases members.len() - i,
        {
            match &members[i].1 {
                JsonValue::String(s) => {
                    return Some((members[i].0.clone(), s.clone()));
                },
                _ => {},
            }
            i += 1;
        }
        None
    }

    /// The parameter that tells most about a call, with its value as it
    /// is shown.
    pub fn extract_primary_param(args: &JsonValue, tool_name: &str, current_dir: Option<&str>) -> (r:
        Option<(String, String)>)
        ensures
            match primary_param(*args, tool_name@) {
                Some((name, value)) => r is Some && r->Some_0.0@ == name && r->Some_0.1@
                    == shown_path(
                    value,
                    dir_view(current_dir),
                ),
                None => r is None,
            },
    {
        match Self::primary_param(args, tool_name) {
            Some((name, value)) => Some(
                (name, Self::format_param_value(value.as_str(), current_dir)),
            ),
            None => None,
        }
    }

    fn title(color: &str, bullet: &str, call: &ToolCall, current_dir: Option<&str>) -> (r: String)
        ensures
            r@ == call_title(
                color@,
                bullet@,
                *call,
                dir_view(current_dir),
            ),
    {
        let mut output = String::from_str(color);
        output.append(bullet);
        output.append("\x1b[0m \x1b[1m");
        output.append(Self::capitalize_first(call.tool_name.as_str()).as_str());
        output.append("\x1b[0m");
        let ghost head = output@;
        match Self::extract_primary_param(&call.parameters, call.tool_name.as_str(), current_dir) {
            Some((_, ctx)) => {
                output.append("(");
                output.append(ctx.as_str());
                output.append(")");
                assert(output@ =~= head + ("("@ + ctx@ + ")"@));
            },
            None => {
                assert(output@ =~= head + Seq::<char>::empty());
            },
        }
        output
    }

    /// The title of a call that has started.
    pub fn format_tool_started(&self, call: &ToolCall, current_dir: Option<&str>) -> (r: String)
        ensures
            r@ == call_title(
                "\x1b[36m"@,
                "\u{25cf}"@,
                *call,
                dir_view(current_dir),
            ),
    {
        Self::title("\x1b[36m", "\u{25cf}", call, current_dir)
    }

    /// The title of a call that runs at the given time: its bullet blinks.
    pub fn format_tool_running_at(&self, call: &ToolCall, now_millis: i64, current_dir: Option<
        &str,
    >) -> (r: String)
        ensures
            r@ == call_title(
                "\x1b[36m"@,
                running_bullet(now_millis),
                *call,
                dir_view(current_dir),
            ),
    {
        let magnitude: u64 = if now_millis >= 0 {
            now_millis as u64
        } else if now_millis == i64::MIN {
            0x8000_0000_0000_0000
        } else {
            (-now_millis) as u64
        };
        let even = (magnitude / 500) % 2 == 0;
        let bullet = if even {
            "\u{25cf} "
        } else {
            "\u{25cb} "
        };
        Self::title("\x1b[36m", bullet, call, current_dir)
    }

    /// The title of a call that runs now.
    pub fn format_tool_running(&self, call: &ToolCall, current_dir: Option<&str>) -> (r: String)
        ensures
            exists|now_millis: i64|
                r@ == call_title(
                    "\x1b[36m"@,
                    running_bullet(now_millis),
                    *call,
                    dir_view(current_dir),
                ),
    {
        let now = utc_now_millis();
        self.format_tool_running_at(call, now, current_dir)
    }

    /// One parameter as text.
    pub fn format_tool_parameter(&self, param: &JsonValue) -> (r: String)
        ensures
            r@ == parameter_text(*param),
    {
        match param {
            JsonValue::String(s) => s.clone(),
            JsonValue::Number(n) => n.clone(),
            JsonValue::Bool(b) => if *b {
                String::from_str("true")
            } else {
                String::from_str("false")
            },
            JsonValue::Null => String::from_str("null\n"),
            other => json_to_string_pretty(other),
        }
    }

    /// A call as text for the user who is asked to allow it.
    pub fn format_toolcall(&self, call: &ToolCall, preview: Option<&ToolResult>) -> (r: String)
        ensures
            r@ == toolcall_text(
                *call,
                match preview {
                    Some(p) => Some(*p),
                    None => None,
                },
            ),
    {
        match preview {
            Some(preview_result) => {
                return preview_result.to_string();
            },
            None => {},
        }
        let removed = match Self::primary_param(&call.parameters, call.tool_name.as_str()) {
            Some((name, _)) => Some(name),
            None => None,
        };
        let mut output = String::new();
        match &call.parameters {
            JsonValue::Object(map) => {
                let ghost skip = removed.deep_view();
                let ghost whole = member_lines(map@, skip, 0);
                let mut i: usize = 0;
                while i < map.len()
                    invariant
                        i <= map.len(),
                        skip == removed.deep_view(),
                        whole == output@ + member_lines(map@, skip, i as int),
                    decreases map.len() - i,
                {
                    let key = &map[i].0;
                    let left_out = match &removed {
                        Some(rm) => str_eq(rm.as_str(), key.as_str()),
                        None => false,
                    };
                    if !left_out {
                        let ghost before = output@;
                        output.append(key.as_str());
                        output.append(": ");
                        output.append(self.format_tool_parameter(&map[i].1).as_str());
                        output.append("\n");
                        assert(output@ =~= before + (key@ + ": "@ + parameter_text(map@[i as int].1)
                            + "\n"@));
                    }
                    assert(whole =~= output@ + member_lines(map@, skip, i + 1));
                    i += 1;
                }
                assert(whole =~= output@);
            },
            _ => {},
        }
        output
    }

    fn preview_of(&self, output: &str) -> (r: Option<String>)
        ensures
            r.deep_view() == preview_markdown(output@, self.preview_lines()),
    {
        let lines = split_lines(output);
        if lines.len() == 0 || self.max_preview_lines == 0 {
            return None;
        }
        let shown = if lines.len() < self.max_preview_lines {
            lines.len()
        } else {
            self.max_preview_lines
        };
        let mut markdown = String::from_str("\n");
        let ghost all = lines.deep_view();
        let ghost body = indented(all, 0, self.max_preview_lines as int);
        let mut i: usize = 0;
        while i < shown
            invariant
                i <= shown <= lines.len(),
                shown <= self.max_preview_lines,
                shown == lines.len() || shown == self.max_preview_lines,
                all == lines.deep_view(),
                "\n"@ + body == markdown@ + indented(all, i as int, self.max_preview_lines as int),
            decreases shown - i,
        {
            let ghost before = markdown@;
            markdown.append("      ");
            markdown.append(lines[i].as_str());
            markdown.append("\n");
            assert(all[i as int] == lines@[i as int]@);
            assert(markdown@ =~= before + ("      "@ + all[i as int] + "\n"@));
            assert("\n"@ + body =~= markdown@ + indented(
                all,
                i + 1,
                self.max_preview_lines as int,
            ));
            i += 1;
        }
        assert("\n"@ + body =~= markdown@);
        if lines.len() > self.max_preview_lines {
            let ghost before = markdown@;
            markdown.append("      ... ");
            markdown.append(
                decimal_string((lines.len() - self.max_preview_lines) as u64).as_str(),
            );
            markdown.append(" more lines\n");
            assert(markdown@ =~= before + ("      ... "@ + decimal(
                (lines.len() - self.max_preview_lines) as nat,
            ) + " more lines\n"@));
        } else {
            assert(markdown@ =~= markdown@ + Seq::<char>::empty());
        }
        Some(markdown)
    }

    fn summary(result: &ToolResult) -> (r: String)
        ensures
            r@ == result_summary(*result),
    {
        match result {
            ToolResult::Success { output, .. } => {
                if is_blank(output.as_str()) {
                    String::from_str("  \u{23bf} \x1b[1mCompleted\x1b[0m")
                } else {
                    let lines = split_lines(output.as_str()).len();
                    let chars = output.as_str().len();
                    let mut text = String::from_str("  \u{23bf} \x1b[1m");
                    if lines == 1 {
                        text.append(decimal_string(chars as u64).as_str());
                        text.append("\x1b[0m chars");
                    } else {
                        text.append(decimal_string(lines as u64).as_str());
                        text.append("\x1b[0m lines, \x1b[1m");
                        text.append(decimal_string(chars as u64).as_str());
                        text.append("\x1b[0m chars");
                    }
                    text
                }
            },
            ToolResult::Error { error, .. } => {
                let mut text = String::from_str("  \u{23bf} \x1b[2;31mError: ");
                text.append(error.as_str());
                text.append("\x1b[0m");
                text
            },
            ToolResult::Denied => String::from_str(
                "  \u{23bf} \x1b[2;31mDenied: The tool call was rejected by the user\x1b[0m",
            ),
        }
    }

    fn shows_preview_of(tool_name: &str) -> (r: bool)
        ensures
            r == shows_preview(tool_name@),
    {
        str_eq(tool_name, "ls") || str_eq(tool_name, "bash") || str_eq(tool_name, "edit")
            || str_eq(tool_name, "multiedit") || str_eq(tool_name, "find") || str_eq(
            tool_name,
            "todo_read",
        ) || str_eq(tool_name, "todo_write")
    }

    /// A result as text. The preview of the output, where there is one,
    /// is rendered for the terminal.
    pub fn format_tool_result(&self, call: &ToolCall, result: &ToolResult, current_dir: Option<
        &str,
    >) -> (r: String)
        ensures
            exists|rendered: Seq<char>|
                r@ == tool_result_text(
                    *call,
                    *result,
                    dir_view(current_dir),
                    self.preview_lines(),
                    rendered,
                ),
    {
        let color = match result {
            ToolResult::Success { .. } => "\x1b[32m",
            _ => "\x1b[31m",
        };
        let mut output = Self::title(color, "\u{25cf}", call, current_dir);
        output.append("\n");
        output.append(Self::summary(result).as_str());
        let ghost head = output@;
        let markdown = match result {
            ToolResult::Success { output: tool_output, .. } => {
                if !is_blank(tool_output.as_str()) && Self::shows_preview_of(
                    call.tool_name.as_str(),
                ) {
                    self.preview_of(tool_output.as_str())
                } else {
                    None
                }
            },
            _ => None,
        };
        assert(markdown.deep_view() == result_preview(*call, *result, self.preview_lines()));
        let ghost dir = dir_view(current_dir);
        match markdown {
            Some(markdown) => {
                let rendered = term_text(
                    SkinColors::plain(),
                    markdown.as_str(),
                );
                output.append(rendered.as_str());
                assert(output@ == tool_result_text(
                    *call,
                    *result,
                    dir,
                    self.preview_lines(),
                    rendered@,
                ));
            },
            None => {
                assert(output@ =~= head + Seq::<char>::empty());
                assert(output@ == tool_result_text(
                    *call,
                    *result,
                    dir,
                    self.preview_lines(),
                    Seq::empty(),
                ));
            },
        }
        output
    }

    /// A thought as text; `None` where it shows nothing.
    pub fn format_thinking(&self, thought: &Result<ChatMessage, AgentError>) -> (r: Option<String>)
        ensures
            exists|reasoning: Seq<char>, content: Seq<char>, failure: Seq<char>|
                r.deep_view() == thinking_text(*thought, reasoning, content, failure),
    {
        match thought {
            Ok(ChatMessage::Assistant { content, reasoning_content, .. }) => {
                let first = match reasoning_content {
                    Some(r) => if !is_blank(r.as_str()) {
                        Some(
                            term_text(
                                SkinColors::dim(),
                                r.as_str(),
                            ),
                        )
                    } else {
                        None
                    },
                    None => None,
                };
                let second = match content {
                    Some(ChatMessageContent::Text(text)) => if !is_blank(text.as_str()) {
                        Some(term_text(SkinColors::plain(), text.as_str()))
                    } else {
                        None
                    },
                    _ => None,
                };
                assert(first is Some == reasoning_shown(*reasoning_content));
                assert(second is Some == content_shown(*content));
                let ghost a = match first.deep_view() {
                    Some(t) => t,
                    None => Seq::empty(),
                };
                let ghost b = match second.deep_view() {
                    Some(t) => t,
                    None => Seq::empty(),
                };
                let r = match (first, second) {
                    (Some(reasoning), Some(shown)) => {
                        let mut text = String::from_str("\x1b[2m\u{273b} ");
                        text.append(reasoning.as_str());
                        text.append("\x1b[0m");
                        text.append("\n");
                        text.append("\u{25cf} ");
                        text.append(shown.as_str());
                        text.append("\x1b[0m");
                        assert(text@ =~= ("\x1b[2m\u{273b} "@ + a + "\x1b[0m"@) + "\n"@ + (
                        "\u{25cf} "@ + b + "\x1b[0m"@));
                        Some(text)
                    },
                    (Some(reasoning), None) => {
                        let mut text = String::from_str("\x1b[2m\u{273b} ");
                        text.append(reasoning.as_str());
                        text.append("\x1b[0m");
                        Some(text)
                    },
                    (None, Some(shown)) => {
                        let mut text = String::from_str("\u{25cf} ");
                        text.append(shown.as_str());
                        text.append("\x1b[0m");
                        Some(text)
                    },
                    (None, None) => None,
                };
                assert(r.deep_view() == thinking_text(*thought, a, b, Seq::empty()));
                r
            },
            Ok(_) => {
                assert(None::<Seq<char>> == thinking_text(
                    *thought,
                    Seq::empty(),
                    Seq::empty(),
                    Seq::empty(),
                ));
                None
            },
            Err(err) => {
                let markdown = prefixed("\u{25cf} **Error:** ", err.to_string().as_str());
                let text = unwrapped_text(
                    SkinColors::failure(),
                    markdown.as_str(),
                );
                assert(Some(text@) == thinking_text(*thought, Seq::empty(), Seq::empty(), text@));
                Some(text)
            },
        }
    }
}

/// An event as text, behind a line feed; `None` for the events that
/// are not shown. `a`, `b` and `c` are the parts rendered for the
/// terminal: for a thought its reasoning, its content and its failure,
/// for anything else `a` alone.
pub open spec fn event_text(
    event: AgentEvent,
    current_dir: Option<Seq<char>>,
    max_preview_lines: nat,
    a: Seq<char>,
    b: Seq<char>,
    c: Seq<char>,
) -> Option<Seq<char>> {
    let shown = match event {
        AgentEvent::BrainResult { thought, .. } => thinking_text(thought, a, b, c),
        AgentEvent::ToolCallCompleted { call, result, .. } => Some(
            tool_result_text(call, result, current_dir, max_preview_lines, a),
        ),
        AgentEvent::UserInput { input } => Some(user_input_text(input@, a)),
        AgentEvent::Error { .. } => Some(a),
        AgentEvent::Completed { .. } => Some(a),
        _ => None,
    };
    match shown {
        Some(text) => Some("\n"@ + text),
        None => None,
    }
}

impl PrettyFormatter {
    /// The markdown of an error.
    pub fn error_markdown(error: &str) -> (r: String)
        ensures
            r@ == error_markdown(error@),
    {
        prefixed("\u{274c} **Error:** ", error)
    }

    /// The markdown of a completion.
    pub fn completion_markdown(success: bool, message: &str) -> (r: String)
        ensures
            r@ == completion_markdown(success, message@),
    {
        if success {
            prefixed("\u{2705} **Completed:** ", message)
        } else {
            prefixed("\u{274c} **Failed:** ", message)
        }
    }

    fn nest(lines: &Vec<String>) -> (r: String)
        ensures
            r@ == nested(lines.deep_view(), 0),
    {
        let ghost all = lines.deep_view();
        let mut out = String::new();
        let mut i: usize = 0;
        while i < lines.len()
            invariant
                i <= lines.len(),
                all == lines.deep_view(),
                nested(all, 0) == out@ + nested(all, i as int),
            decreases lines.len() - i,
        {
            let ghost before = out@;
            out.append("  ");
            out.append(lines[i].as_str());
            out.append("\n");
            assert(all[i as int] == lines@[i as int]@);
            assert(out@ =~= before + ("  "@ + all[i as int] + "\n"@));
            assert(nested(all, 0) =~= out@ + nested(all, i + 1));
            i += 1;
        }
        assert(nested(all, 0) =~= out@);
        out
    }

    /// What the user said, as text.
    pub fn format_user_input(&self, input: &str) -> (r: String)
        ensures
            exists|rendered: Seq<char>| r@ == user_input_text(input@, rendered),
    {
        let lines = split_lines(input);
        let dim = SkinColors::dim();
        if lines.len() == 1 {
            let rendered = term_text(dim, input);
            let text = prefixed("\x1b[2m> \x1b[0m", rendered.as_str());
            assert(text@ == user_input_text(input@, rendered@));
            text
        } else if lines.len() == 0 {
            let text = String::from_str("\x1b[2m> \x1b[0m");
            assert(text@ == user_input_text(input@, Seq::empty()));
            text
        } else {
            let mut head = String::from_str("\x1b[2m> ");
            head.append(lines[0].as_str());
            head.append("\x1b[0m");
            assert(lines.deep_view()[0] == lines@[0]@);
            let remaining = join_lines_from(&lines, 1);
            if is_blank(remaining.as_str()) {
                assert(head@ == user_input_text(input@, Seq::empty()));
                head
            } else {
                let rendered = term_text(dim, remaining.as_str());
                let below = split_lines(rendered.as_str());
                head.append("\n");
                head.append(Self::nest(&below).as_str());
                let n = head.as_str().unicode_len();
                proof {
                    reveal_strlit("\n");
                }
                let text = head.as_str().substring_char(0, n - 1).to_owned();
                assert(head@.subrange(0, n - 1) =~= head@.drop_last());
                assert(text@ == user_input_text(input@, rendered@));
                text
            }
        }
    }

    /// An event as text, behind a line feed; `None` for the events that
    /// are not shown. Markdown is rendered for the terminal.
    pub fn format_event(&self, event: &AgentEvent, current_dir: Option<&str>) -> (r: Option<String>)
        ensures
            exists|a: Seq<char>, b: Seq<char>, c: Seq<char>|
                r.deep_view() == event_text(
                    *event,
                    dir_view(current_dir),
                    self.preview_lines(),
                    a,
                    b,
                    c,
                ),
    {
        let ghost dir = dir_view(current_dir);
        let ghost none = Seq::<char>::empty();
        match event {
            AgentEvent::BrainResult { thought, .. } => {
                let shown = self.format_thinking(thought);
                let ghost (a, b, c) = choose|a: Seq<char>, b: Seq<char>, c: Seq<char>|
                    shown.deep_view() == thinking_text(*thought, a, b, c);
                let r = match shown {
                    Some(text) => Some(prefixed("\n", text.as_str())),
                    None => None,
                };
                assert(r.deep_view() == event_text(*event, dir, self.preview_lines(), a, b, c));
                r
            },
            AgentEvent::ToolCallCompleted { call, result, .. } => {
                let shown = self.format_tool_result(call, result, current_dir);
                let ghost a = choose|a: Seq<char>|
                    shown@ == tool_result_text(*call, *result, dir, self.preview_lines(), a);
                let r = Some(prefixed("\n", shown.as_str()));
                assert(r.deep_view() == event_text(
                    *event,
                    dir,
                    self.preview_lines(),
                    a,
                    none,
                    none,
                ));
                r
            },
            AgentEvent::UserInput { input } => {
                let shown = self.format_user_input(input.as_str());
                let ghost a = choose|a: Seq<char>| shown@ == user_input_text(input@, a);
                let r = Some(prefixed("\n", shown.as_str()));
                assert(r.deep_view() == event_text(
                    *event,
                    dir,
                    self.preview_lines(),
                    a,
                    none,
                    none,
                ));
                r
            },
            AgentEvent::Error { error } => {
                let markdown = Self::error_markdown(error.as_str());
                let shown = term_text(
                    SkinColors::failure(),
                    markdown.as_str(),
                );
                let r = Some(prefixed("\n", shown.as_str()));
                assert(r.deep_view() == event_text(
                    *event,
                    dir,
                    self.preview_lines(),
                    shown@,
                    none,
                    none,
                ));
                r
            },
            AgentEvent::Completed { success, message } => {
                let markdown = Self::completion_markdown(*success, message.as_str());
                let colors = if *success {
                    SkinColors::success()
                } else {
                    SkinColors::failure()
                };
                let shown = term_text(colors, markdown.as_str());
                let r = Some(prefixed("\n", shown.as_str()));
                assert(r.deep_view() == event_text(
                    *event,
                    dir,
                    self.preview_lines(),
                    shown@,
                    none,
                    none,
                ));
                r
            },
            _ => {
                assert(None::<Seq<char>> == event_text(
                    *event,
                    dir,
                    self.preview_lines(),
                    none,
                    none,
                    none,
                ));
                None
            },
        }
    }
}

impl Default for PrettyFormatter {
    fn default() -> (r: Self)
        ensures
            r.preview_lines() == 10,
    {
        Self::new()
    }
}

} // verus!
