//! The settings that are fixed when the firmware is built: the wireless network, from `wifi.env`,
//! and the storage partition, from `partition-table.csv`.
use vstd::prelude::*;
use vstd::string::StringExecFns;
use crate::text;

verus! {

/// The file with the settings of the wireless network. It holds lines `KEY=Value`, with
///
/// | Name | Description |
/// |-|-|
/// | `WIFI_SSID` | The name of the network |
/// | `WIFI_PASSWORD` | The password to use |
///
/// Empty lines and lines that begin with `#` are skipped.
pub const WIFI_FILE_PATH: &'static str = "wifi.env";

/// The file with the partition table.
pub const PARTITION_TABLE_FILE_PATH: &'static str = "partition-table.csv";

/// What reading a file of settings leads to: lines for the build, up to the first mistake.
pub struct BuildOutput {
    /// What is told to the build, line by line.
    pub lines: Vec<String>,
    /// What is wrong, if something is. The build then fails with this message.
    pub failure: Option<String>,
}

/// What a [`BuildOutput`] says.
pub struct BuildOutputView {
    pub lines: Seq<Seq<char>>,
    pub failure: Option<Seq<char>>,
}

impl View for BuildOutput {
    type V = BuildOutputView;

    open spec fn view(&self) -> BuildOutputView {
        BuildOutputView {
            lines: text::string_views(self.lines@),
            failure: match self.failure {
                Some(message) => Some(message@),
                None => None,
            },
        }
    }
}

/// What one line of a file leads to.
pub enum LineView {
    /// Nothing.
    Skip,
    /// Lines for the build.
    Emit(Seq<Seq<char>>),
    /// The message with which the build fails.
    Fail(Seq<char>),
}

/// What the first lines of a file lead to, given what each of them leads to.
pub open spec fn gathered(outcomes: Seq<LineView>) -> BuildOutputView
    decreases outcomes.len(),
{
    if outcomes.len() == 0 {
        BuildOutputView { lines: Seq::empty(), failure: None }
    } else {
        match outcomes[0] {
            LineView::Skip => gathered(outcomes.skip(1)),
            LineView::Emit(lines) => {
                let rest = gathered(outcomes.skip(1));
                BuildOutputView { lines: lines + rest.lines, failure: rest.failure }
            },
            LineView::Fail(message) => BuildOutputView {
                lines: Seq::empty(),
                failure: Some(message),
            },
        }
    }
}

/// Whether a key of the network settings is known.
pub open spec fn is_wifi_key(key: Seq<char>) -> bool {
    key == "WIFI_SSID"@ || key == "WIFI_PASSWORD"@
}

/// What a line of the network settings leads to.
pub open spec fn wifi_line(raw: Seq<char>) -> LineView {
    let line = text::trimmed(raw);
    let at = text::position(line, '=');
    let key = text::trimmed(line.take(at));
    let value = text::trimmed(line.skip(at + 1));
    if line.len() == 0 || line[0] == '#' {
        LineView::Skip
    } else if at == line.len() {
        LineView::Fail("Invalid line in wifi.env: "@ + line)
    } else if is_wifi_key(key) {
        LineView::Emit(seq!["cargo:rustc-env="@ + key + "="@ + value])
    } else {
        LineView::Fail("Unknown key in wifi.env: "@ + key)
    }
}

/// What each line of the network settings leads to.
pub open spec fn wifi_outcomes(contents: Seq<char>) -> Seq<LineView> {
    Seq::new(
        text::lines_of(contents).len(),
        |i: int| wifi_line(text::lines_of(contents)[i]),
    )
}

enum Line {
    Skip,
    Emit(Vec<String>),
    Fail(String),
}

spec fn line_view(line: Line) -> LineView {
    match line {
        Line::Skip => LineView::Skip,
        Line::Emit(lines) => LineView::Emit(text::string_views(lines@)),
        Line::Fail(message) => LineView::Fail(message@),
    }
}

fn read_wifi_line(raw: &str) -> (outcome: Line)
    ensures
        line_view(outcome) == wifi_line(raw@),
{
    let line = text::trim(raw);
    proof {
        reveal_strlit("#");
        assert("#"@ =~= seq!['#']);
        assert(text::begins_with(line@, "#"@) <==> line@.len() > 0 && line@[0] == '#') by {
            if line@.len() > 0 && line@[0] == '#' {
                assert(line@.take(1) =~= seq!['#']);
            }
            if text::begins_with(line@, "#"@) {
                assert(line@.take(1)[0] == '#');
            }
        }
    }
    if line.is_empty() || text::starts_with(line, "#") {
        return Line::Skip;
    }
    proof {
        text::lemma_position(line@, '=');
    }
    match text::split_once(line, '=') {
        None => {
            let mut message = "Invalid line in wifi.env: ".to_owned();
            message.append(line);
            Line::Fail(message)
        },
        Some((left, right)) => {
            let key = text::trim(left);
            let value = text::trim(right);
            if text::same_text(key, "WIFI_SSID") || text::same_text(key, "WIFI_PASSWORD") {
                let mut directive = "cargo:rustc-env=".to_owned();
                directive.append(key);
                directive.append("=");
                directive.append(value);
                let mut lines: Vec<String> = Vec::new();
                lines.push(directive);
                assert(text::string_views(lines@) =~= seq![directive@]);
                Line::Emit(lines)
            } else {
                let mut message = "Unknown key in wifi.env: ".to_owned();
                message.append(key);
                Line::Fail(message)
            }
        },
    }
}

/// Reads the settings of the wireless network. Each becomes an environment variable of the build.
pub fn load_wifi_credentials(contents: &str) -> (output: BuildOutput)
    ensures
        output@ == gathered(wifi_outcomes(contents@)),
{
    let rows = text::lines(contents);
    let ghost outcomes = wifi_outcomes(contents@);
    let mut lines: Vec<String> = Vec::new();
    let mut i: usize = 0;
    assert(outcomes.skip(0) =~= outcomes);
    assert(text::string_views(lines@) =~= Seq::empty());
    assert(Seq::<Seq<char>>::empty() + gathered(outcomes).lines =~= gathered(outcomes).lines);
    while i < rows.len()
        invariant
            i <= rows.len(),
            text::views(rows@) == text::lines_of(contents@),
            outcomes == wifi_outcomes(contents@),
            text::string_views(lines@) + gathered(outcomes.skip(i as int)).lines == gathered(
                outcomes,
            ).lines,
            gathered(outcomes.skip(i as int)).failure == gathered(outcomes).failure,
        decreases rows.len() - i,
    {
        let ghost rest = outcomes.skip(i as int);
        assert(rest.skip(1) =~= outcomes.skip(i + 1));
        assert(text::views(rows@)[i as int] == rows@[i as int]@);
        assert(rest[0] == wifi_line(rows@[i as int]@));
        match read_wifi_line(rows[i]) {
            Line::Skip => {},
            Line::Emit(mut more) => {
                let ghost before = lines@;
                let ghost added = more@;
                lines.append(&mut more);
                assert(text::string_views(lines@) =~= text::string_views(before)
                    + text::string_views(added));
                assert(text::string_views(before) + (text::string_views(added) + gathered(
                    outcomes.skip(i + 1),
                ).lines) =~= text::string_views(lines@) + gathered(outcomes.skip(i + 1)).lines);
            },
            Line::Fail(message) => {
                assert(text::string_views(lines@) + Seq::<Seq<char>>::empty()
                    =~= text::string_views(lines@));
                return BuildOutput { lines, failure: Some(message) };
            },
        }
        i = i + 1;
    }
    assert(text::string_views(lines@) + Seq::<Seq<char>>::empty() =~= text::string_views(lines@));
    BuildOutput { lines, failure: None }
}

/// `parts` without the empty ones at its beginning.
pub open spec fn without_leading_empty(parts: Seq<Seq<char>>) -> Seq<Seq<char>>
    decreases parts.len(),
{
    if parts.len() > 0 && parts[0].len() == 0 {
        without_leading_empty(parts.skip(1))
    } else {
        parts
    }
}

/// The columns of a line of the partition table: what stands between commas, without white space
/// around it. Empty columns at the beginning do not count.
pub open spec fn columns(line: Seq<char>) -> Seq<Seq<char>> {
    let parts = without_leading_empty(text::fields(line, ','));
    Seq::new(parts.len(), |i: int| text::trimmed(parts[i]))
}

/// Whether a line of the partition table defines the storage partition: its name is the first
/// thing in it.
pub open spec fn defines_storage(raw: Seq<char>) -> bool {
    text::begins_with(text::trimmed(raw), "storage"@)
}

/// What a line of the partition table leads to.
pub open spec fn partition_line(raw: Seq<char>) -> LineView {
    let cells = columns(text::trimmed(raw));
    if !defines_storage(raw) {
        LineView::Skip
    } else if cells.len() < 5 {
        LineView::Fail("The definition of the partition \"storage\" has an unexpected format"@)
    } else {
        LineView::Emit(
            seq![
                "cargo:rustc-env=STORAGE_PARTITION_START_INDEX="@ + cells[3],
                "cargo:rustc-env=STORAGE_PARTITION_END_INDEX="@ + cells[4],
            ],
        )
    }
}

/// What each line of the partition table leads to.
pub open spec fn partition_outcomes(contents: Seq<char>) -> Seq<LineView> {
    Seq::new(
        text::lines_of(contents).len(),
        |i: int| partition_line(text::lines_of(contents)[i]),
    )
}

/// Whether the partition table defines the storage partition.
pub open spec fn has_storage(contents: Seq<char>) -> bool {
    exists|i: int|
        0 <= i < text::lines_of(contents).len() && defines_storage(
            #[trigger] text::lines_of(contents)[i],
        )
}

/// What reading the partition table leads to.
pub open spec fn partition_output(contents: Seq<char>) -> BuildOutputView {
    if has_storage(contents) {
        gathered(partition_outcomes(contents))
    } else {
        BuildOutputView {
            lines: Seq::empty(),
            failure: Some("No partition with the name \"storage\" found"@),
        }
    }
}

/// A line that begins with a name has no empty column at its beginning.
proof fn lemma_first_column(line: Seq<char>)
    requires
        text::begins_with(line, "storage"@),
    ensures
        without_leading_empty(text::fields(line, ',')) == text::fields(line, ','),
{
    reveal_strlit("storage");
    assert(line.take(7)[0] == 's');
    text::lemma_position(line, ',');
    assert(text::position(line, ',') > 0);
    assert(text::fields(line, ',')[0].len() > 0);
}

fn read_partition_line(raw: &str) -> (outcome: Line)
    ensures
        line_view(outcome) == partition_line(raw@),
        outcome is Skip <==> !defines_storage(raw@),
{
    let line = text::trim(raw);
    if !text::starts_with(line, "storage") {
        return Line::Skip;
    }
    proof {
        lemma_first_column(line@);
    }
    let parts = text::split(line, ',');
    assert(text::views(parts@).len() == parts@.len());
    if parts.len() < 5 {
        return Line::Fail(
            "The definition of the partition \"storage\" has an unexpected format".to_owned(),
        );
    }
    assert(text::views(parts@)[3] == parts@[3]@);
    assert(text::views(parts@)[4] == parts@[4]@);
    let mut start = "cargo:rustc-env=STORAGE_PARTITION_START_INDEX=".to_owned();
    start.append(text::trim(parts[3]));
    let mut end = "cargo:rustc-env=STORAGE_PARTITION_END_INDEX=".to_owned();
    end.append(text::trim(parts[4]));
    let mut lines: Vec<String> = Vec::new();
    lines.push(start);
    lines.push(end);
    assert(text::string_views(lines@) =~= seq![start@, end@]);
    Line::Emit(lines)
}

/// Reads the start and the end index of the storage partition from the partition table. Both
/// become environment variables of the build.
pub fn load_storage_indexes_from_partition_table(contents: &str) -> (output: BuildOutput)
    ensures
        output@ == partition_output(contents@),
{
    let rows = text::lines(contents);
    let ghost outcomes = partition_outcomes(contents@);
    let mut lines: Vec<String> = Vec::new();
    let mut found = false;
    let mut i: usize = 0;
    assert(outcomes.skip(0) =~= outcomes);
    assert(text::string_views(lines@) =~= Seq::empty());
    assert(Seq::<Seq<char>>::empty() + gathered(outcomes).lines =~= gathered(outcomes).lines);
    while i < rows.len()
        invariant
            i <= rows.len(),
            text::views(rows@) == text::lines_of(contents@),
            outcomes == partition_outcomes(contents@),
            text::string_views(lines@) + gathered(outcomes.skip(i as int)).lines == gathered(
                outcomes,
            ).lines,
            gathered(outcomes.skip(i as int)).failure == gathered(outcomes).failure,
            found <==> exists|j: int|
                0 <= j < i && defines_storage(#[trigger] text::lines_of(contents@)[j]),
            !found ==> lines.len() == 0,
        decreases rows.len() - i,
    {
        let ghost rest = outcomes.skip(i as int);
        assert(rest.skip(1) =~= outcomes.skip(i + 1));
        assert(text::views(rows@)[i as int] == rows@[i as int]@);
        assert(text::lines_of(contents@)[i as int] == rows@[i as int]@);
        assert(rest[0] == partition_line(rows@[i as int]@));
        match read_partition_line(rows[i]) {
            Line::Skip => {},
            Line::Emit(mut more) => {
                let ghost before = lines@;
                let ghost added = more@;
                found = true;
                lines.append(&mut more);
                assert(text::string_views(lines@) =~= text::string_views(before)
                    + text::string_views(added));
                assert(text::string_views(before) + (text::string_views(added) + gathered(
                    outcomes.skip(i + 1),
                ).lines) =~= text::string_views(lines@) + gathered(outcomes.skip(i + 1)).lines);
            },
            Line::Fail(message) => {
                assert(has_storage(contents@));
                assert(text::string_views(lines@) + Seq::<Seq<char>>::empty()
                    =~= text::string_views(lines@));
                return BuildOutput { lines, failure: Some(message) };
            },
        }
        i = i + 1;
    }
    assert(text::string_views(lines@) + Seq::<Seq<char>>::empty() =~= text::string_views(lines@));
    if !found {
        assert(!has_storage(contents@));
        assert(text::string_views(lines@) =~= Seq::empty());
        return BuildOutput {
            lines,
            failure: Some("No partition with the name \"storage\" found".to_owned()),
        };
    }
    BuildOutput { lines, failure: None }
}

/// Whether some outcome is a failure.
pub open spec fn has_failure(outcomes: Seq<LineView>) -> bool {
    exists|i: int| 0 <= i < outcomes.len() && (#[trigger] outcomes[i]) is Fail
}

/// The build fails exactly if some line is wrong, with the message of the first such line, and all
/// that was told to the build came from the lines before it.
pub proof fn law_first_mistake_decides(outcomes: Seq<LineView>, first: int)
    requires
        0 <= first <= outcomes.len(),
        first < outcomes.len() ==> outcomes[first] is Fail,
        forall|i: int| 0 <= i < first ==> !((#[trigger] outcomes[i]) is Fail),
    ensures
        gathered(outcomes).failure == if first < outcomes.len() {
            Some(outcomes[first]->Fail_0)
        } else {
            None
        },
        gathered(outcomes).failure is Some <==> has_failure(outcomes),
        gathered(outcomes).lines == gathered(outcomes.take(first)).lines,
    decreases outcomes.len(),
{
    if outcomes.len() == 0 {
        assert(outcomes.take(first) =~= outcomes);
    } else if first == 0 {
        assert(outcomes.take(0) =~= Seq::empty());
        assert(outcomes[0] is Fail);
    } else {
        let rest = outcomes.skip(1);
        assert forall|i: int| 0 <= i < first - 1 implies !((#[trigger] rest[i]) is Fail) by {
            assert(rest[i] == outcomes[i + 1]);
        }
        law_first_mistake_decides(rest, first - 1);
        assert(outcomes.take(first).skip(1) =~= rest.take(first - 1));
        assert(outcomes.take(first)[0] == outcomes[0]);
        assert(!(outcomes[0] is Fail));
        if first < outcomes.len() {
            assert(has_failure(outcomes));
        } else {
            assert(!has_failure(outcomes));
        }
    }
}

/// Whether a line told to the build sets one of the two network settings.
pub open spec fn sets_wifi(line: Seq<char>) -> bool {
    text::begins_with(line, "cargo:rustc-env=WIFI_SSID="@) || text::begins_with(
        line,
        "cargo:rustc-env=WIFI_PASSWORD="@,
    )
}

proof fn lemma_gathered_all_set(outcomes: Seq<LineView>)
    requires
        forall|i: int|
            0 <= i < outcomes.len() && (#[trigger] outcomes[i]) is Emit ==> (
            outcomes[i]->Emit_0).len() == 1 && sets_wifi((outcomes[i]->Emit_0)[0]),
    ensures
        forall|i: int|
            0 <= i < gathered(outcomes).lines.len() ==> sets_wifi(
                #[trigger] gathered(outcomes).lines[i],
            ),
    decreases outcomes.len(),
{
    if outcomes.len() > 0 {
        let rest = outcomes.skip(1);
        assert forall|i: int| 0 <= i < rest.len() && (#[trigger] rest[i]) is Emit implies (
        rest[i]->Emit_0).len() == 1 && sets_wifi((rest[i]->Emit_0)[0]) by {
            assert(rest[i] == outcomes[i + 1]);
        }
        lemma_gathered_all_set(rest);
        assert(outcomes[0] is Emit ==> (outcomes[0]->Emit_0).len() == 1);
        assert forall|i: int| 0 <= i < gathered(outcomes).lines.len() implies sets_wifi(
            #[trigger] gathered(outcomes).lines[i],
        ) by {
            if outcomes[0] is Emit {
                if i > 0 {
                    assert(gathered(outcomes).lines[i] == gathered(rest).lines[i - 1]);
                }
            }
        }
    }
}

/// Nothing but the name and the password of the network gets from the file into the build.
pub proof fn law_only_network_settings(contents: Seq<char>)
    ensures
        forall|i: int|
            0 <= i < gathered(wifi_outcomes(contents)).lines.len() ==> sets_wifi(
                #[trigger] gathered(wifi_outcomes(contents)).lines[i],
            ),
{
    let outcomes = wifi_outcomes(contents);
    assert forall|i: int| 0 <= i < outcomes.len() && (#[trigger] outcomes[i]) is Emit implies (
    outcomes[i]->Emit_0).len() == 1 && sets_wifi((outcomes[i]->Emit_0)[0]) by {
        let line = text::trimmed(text::lines_of(contents)[i]);
        let at = text::position(line, '=');
        let key = text::trimmed(line.take(at));
        let told = (outcomes[i]->Emit_0)[0];
        reveal_strlit("cargo:rustc-env=");
        reveal_strlit("=");
        reveal_strlit("WIFI_SSID");
        reveal_strlit("WIFI_PASSWORD");
        reveal_strlit("cargo:rustc-env=WIFI_SSID=");
        reveal_strlit("cargo:rustc-env=WIFI_PASSWORD=");
        if key == "WIFI_SSID"@ {
            assert(told.take(26) =~= "cargo:rustc-env=WIFI_SSID="@);
        } else {
            assert(told.take(30) =~= "cargo:rustc-env=WIFI_PASSWORD="@);
        }
    }
    lemma_gathered_all_set(outcomes);
}

/// What to do when the program is started: as a step of the build, or by a linker that asks what
/// an error may mean.
pub enum LinkerReply {
    /// It is a step of the build.
    Build,
    /// Say what may help, if something may, and end with this code.
    Exit { code: i32, hint: Option<&'static str> },
}

/// Whether `what` is one of the functions for which an allocator is needed.
pub open spec fn is_heap_function(what: Seq<char>) -> bool {
    ||| what == "free"@
    ||| what == "malloc"@
    ||| what == "calloc"@
    ||| what == "get_free_internal_heap_size"@
    ||| what == "malloc_internal"@
    ||| what == "realloc_internal"@
    ||| what == "calloc_internal"@
    ||| what == "free_internal"@
}

/// What may help when the linker does not find the symbol `what`.
pub open spec fn symbol_hint(what: Seq<char>) -> Option<Seq<char>> {
    if text::begins_with(what, "_defmt_"@) {
        Some(
            "💡 `defmt` not found - make sure `defmt.x` is added as a linker script and you have included `use defmt_rtt as _;`"@,
        )
    } else if what == "_stack_start"@ {
        Some("💡 Is the linker script `linkall.x` missing?"@)
    } else if text::begins_with(what, "esp_rtos_"@) {
        Some(
            "💡 `esp-radio` has no scheduler enabled. Make sure you have initialized `esp-rtos` or provided an external scheduler."@,
        )
    } else if what == "embedded_test_linker_file_not_added_to_rustflags"@ {
        Some(
            "💡 `embedded-test` not found - make sure `embedded-test.x` is added as a linker script for tests"@,
        )
    } else if is_heap_function(what) {
        Some(
            "💡 Did you forget the `esp-alloc` dependency or didn't enable the `compat` feature on it?"@,
        )
    } else {
        None
    }
}

fn hint_for(what: &str) -> (hint: Option<&'static str>)
    ensures
        hint is Some <==> symbol_hint(what@) is Some,
        hint matches Some(h) ==> Some(h@) == symbol_hint(what@),
{
    if text::starts_with(what, "_defmt_") {
        Some(
            "💡 `defmt` not found - make sure `defmt.x` is added as a linker script and you have included `use defmt_rtt as _;`",
        )
    } else if text::same_text(what, "_stack_start") {
        Some("💡 Is the linker script `linkall.x` missing?")
    } else if text::starts_with(what, "esp_rtos_") {
        Some(
            "💡 `esp-radio` has no scheduler enabled. Make sure you have initialized `esp-rtos` or provided an external scheduler.",
        )
    } else if text::same_text(what, "embedded_test_linker_file_not_added_to_rustflags") {
        Some(
            "💡 `embedded-test` not found - make sure `embedded-test.x` is added as a linker script for tests",
        )
    } else if text::same_text(what, "free") || text::same_text(what, "malloc") || text::same_text(
        what,
        "calloc",
    ) || text::same_text(what, "get_free_internal_heap_size") || text::same_text(
        what,
        "malloc_internal",
    ) || text::same_text(what, "realloc_internal") || text::same_text(what, "calloc_internal")
        || text::same_text(what, "free_internal") {
        Some(
            "💡 Did you forget the `esp-alloc` dependency or didn't enable the `compat` feature on it?",
        )
    } else {
        None
    }
}

/// What to do when the program is started with `args`, of which the first is its own name. A linker
/// passes the kind of error and what it is about.
pub fn linker_be_nice(args: &Vec<String>) -> (reply: LinkerReply)
    requires
        args.len() != 2,
    ensures
        reply is Build <==> args.len() <= 1,
        reply matches LinkerReply::Exit { code, hint } ==> {
            if args[1]@ == "undefined-symbol"@ {
                &&& code == 0
                &&& hint is Some <==> symbol_hint(args[2]@) is Some
                &&& hint matches Some(h) ==> Some(h@) == symbol_hint(args[2]@)
            } else {
                code == 1 && hint is None
            }
        },
{
    if args.len() <= 1 {
        return LinkerReply::Build;
    }
    if text::same_text(args[1].as_str(), "undefined-symbol") {
        LinkerReply::Exit { code: 0, hint: hint_for(args[2].as_str()) }
    } else {
        LinkerReply::Exit { code: 1, hint: None }
    }
}

/// The lines told to the build are these, and nothing is wrong.
pub open spec fn tells_only(output: BuildOutput, line: Seq<char>) -> bool {
    output.lines@.len() == 1 && output.lines@[0]@ == line && output.failure is None
}

/// Nothing is told to the build, and it fails with this message.
pub open spec fn fails_with(output: BuildOutput, message: Seq<char>) -> bool {
    output.lines@.len() == 0 && (output.failure matches Some(said) && said@ == message)
}

/// What a file of one line holds, whether a line feed ends the line or not.
pub open spec fn is_one_line(contents: Seq<char>, line: Seq<char>) -> bool {
    !line.contains('\n') && (contents == line || contents == line + seq!['\n'])
}

/// A line with a setting is cut into its key and its value.
proof fn lemma_setting_line(a: Seq<char>, key: Seq<char>, b: Seq<char>, rest: Seq<char>)
    requires
        text::is_blank(a),
        text::has_no_margin(key),
        !key.contains('='),
        text::is_blank(b),
    ensures
        ({
            let line = text::trimmed(a + key + b + seq!['='] + rest);
            let at = text::position(line, '=');
            &&& 0 <= at < line.len()
            &&& text::trimmed(line.take(at)) == key
            &&& text::trimmed(line.skip(at + 1)) == text::trimmed(rest)
            &&& line[0] == if key.len() > 0 {
                key[0]
            } else {
                '='
            }
        }),
{
    let none = Seq::<char>::empty();
    let parts = text::lemma_trimmed_parts(rest);
    let head = if key.len() > 0 {
        key + b
    } else {
        none
    };
    let before = if key.len() > 0 {
        a
    } else {
        a + b
    };
    let tail = if parts.1.len() > 0 {
        parts.0 + parts.1
    } else {
        none
    };
    let after = if parts.1.len() > 0 {
        parts.2
    } else {
        parts.0 + parts.2
    };
    let line = head + seq!['='] + tail;
    assert(text::is_blank(before)) by {
        assert forall|i: int| 0 <= i < before.len() implies text::is_white_space(
            #[trigger] before[i],
        ) by {
            if i < a.len() {
                assert(before[i] == a[i]);
            } else {
                assert(before[i] == b[i - a.len()]);
            }
        }
    }
    assert(text::is_blank(after)) by {
        if parts.1.len() == 0 {
            assert forall|i: int| 0 <= i < after.len() implies text::is_white_space(
                #[trigger] after[i],
            ) by {
                if i < parts.0.len() {
                    assert(after[i] == parts.0[i]);
                } else {
                    assert(after[i] == parts.2[i - parts.0.len()]);
                }
            }
        }
    }
    assert(text::has_no_margin(line));
    assert(a + key + b + seq!['='] + rest =~= before + line + after);
    text::lemma_trimmed_margins(before, line, after);
    assert forall|j: int| 0 <= j < head.len() implies line[j] != '=' by {
        if j < key.len() {
            assert(line[j] == key[j]);
            assert(key.contains(key[j]));
        } else {
            assert(line[j] == b[j - key.len()]);
        }
    }
    text::lemma_position_is(line, '=', head.len() as int);
    assert(line.take(head.len() as int) =~= head);
    assert(line.skip(head.len() as int + 1) =~= tail);
    if key.len() > 0 {
        assert(head =~= none + key + b);
        text::lemma_trimmed_margins(none, key, b);
    } else {
        assert(key =~= none);
    }
    if parts.1.len() > 0 {
        assert(tail =~= parts.0 + parts.1 + none);
        text::lemma_trimmed_margins(parts.0, parts.1, none);
    } else {
        assert(parts.1 =~= none);
    }
}

/// A file of one line leads to what its line leads to.
proof fn lemma_wifi_one_line(contents: Seq<char>, line: Seq<char>)
    requires
        is_one_line(contents, line),
        contents.len() > 0,
    ensures
        wifi_outcomes(contents) =~= seq![wifi_line(line)],
{
    let none = Seq::<char>::empty();
    text::lemma_lines_cut(line, none);
    text::lemma_trimmed_carriage_return(line);
    assert(line + seq!['\n'] + none =~= line + seq!['\n']);
    assert(text::lines_of(contents).len() == 1);
}

/// What one outcome leads to.
proof fn lemma_gathered_one(outcome: LineView)
    ensures
        gathered(seq![outcome]) == match outcome {
            LineView::Skip => BuildOutputView { lines: Seq::empty(), failure: None },
            LineView::Emit(lines) => BuildOutputView { lines, failure: None },
            LineView::Fail(message) => BuildOutputView {
                lines: Seq::empty(),
                failure: Some(message),
            },
        },
{
    assert(seq![outcome].skip(1) =~= Seq::empty());
    reveal_with_fuel(gathered, 2);
    if let LineView::Emit(lines) = outcome {
        assert(lines + Seq::<Seq<char>>::empty() =~= lines);
    }
}

/// The value of a network setting arrives in the build whole and unchanged, however long it is and
/// whatever it holds, `=` and `#` among it. White space around the key and the value is dropped.
pub proof fn law_network_setting_arrives(
    contents: &str,
    output: BuildOutput,
    key: Seq<char>,
    value: Seq<char>,
    a: Seq<char>,
    b: Seq<char>,
    c: Seq<char>,
    d: Seq<char>,
)
    requires
        call_ensures(load_wifi_credentials, (contents,), output),
        key == "WIFI_SSID"@ || key == "WIFI_PASSWORD"@,
        is_one_line(contents@, a + key + b + seq!['='] + c + value + d),
        text::is_blank(a),
        text::is_blank(b),
        text::is_blank(c),
        text::has_no_margin(value),
        text::is_blank(d),
    ensures
        tells_only(output, "cargo:rustc-env="@ + key + "="@ + value),
{
    reveal_strlit("WIFI_SSID");
    reveal_strlit("WIFI_PASSWORD");
    let line = a + key + b + seq!['='] + c + value + d;
    assert(line =~= a + key + b + seq!['='] + (c + value + d));
    assert(!key.contains('='));
    assert(text::has_no_margin(key));
    lemma_setting_line(a, key, b, c + value + d);
    text::lemma_trimmed_margins(c, value, d);
    lemma_wifi_one_line(contents@, line);
    lemma_gathered_one(wifi_line(line));
    assert(output@.lines.len() == output.lines@.len());
    assert(output@.lines[0] == output.lines@[0]@);
}

/// A line that is blank, and one whose first character other than white space is `#`, tell the
/// build nothing and are no mistake.
pub proof fn law_comments_are_skipped(
    contents: &str,
    output: BuildOutput,
    a: Seq<char>,
    rest: Seq<char>,
)
    requires
        call_ensures(load_wifi_credentials, (contents,), output),
        text::is_blank(a),
        is_one_line(contents@, a) || is_one_line(contents@, a + seq!['#'] + rest),
    ensures
        output.lines@.len() == 0,
        output.failure is None,
{
    let none = Seq::<char>::empty();
    if contents@.len() == 0 {
        assert(wifi_outcomes(contents@) =~= Seq::empty());
    } else if is_one_line(contents@, a) {
        lemma_wifi_one_line(contents@, a);
        assert(a =~= a + none + none);
        text::lemma_trimmed_margins(a, none, none);
        lemma_gathered_one(wifi_line(a));
    } else {
        let line = a + seq!['#'] + rest;
        lemma_wifi_one_line(contents@, line);
        let parts = text::lemma_trimmed_parts(rest);
        let kept = if parts.1.len() > 0 {
            seq!['#'] + parts.0 + parts.1
        } else {
            seq!['#']
        };
        let after = if parts.1.len() > 0 {
            parts.2
        } else {
            parts.0 + parts.2
        };
        assert(text::is_blank(after)) by {
            if parts.1.len() == 0 {
                assert forall|i: int| 0 <= i < after.len() implies text::is_white_space(
                    #[trigger] after[i],
                ) by {
                    if i < parts.0.len() {
                        assert(after[i] == parts.0[i]);
                    } else {
                        assert(after[i] == parts.2[i - parts.0.len()]);
                    }
                }
            }
        }
        assert(line =~= a + kept + after);
        text::lemma_trimmed_margins(a, kept, after);
        lemma_gathered_one(wifi_line(line));
    }
    assert(output@.lines.len() == output.lines@.len());
}

/// The messages about the network settings name their file.
proof fn lemma_messages_name_file()
    ensures
        "Invalid line in wifi.env: "@ == "Invalid line in "@ + WIFI_FILE_PATH@ + ": "@,
        "Unknown key in wifi.env: "@ == "Unknown key in "@ + WIFI_FILE_PATH@ + ": "@,
{
    reveal_strlit("Invalid line in wifi.env: ");
    reveal_strlit("Unknown key in wifi.env: ");
    reveal_strlit("Invalid line in ");
    reveal_strlit("Unknown key in ");
    reveal_strlit("wifi.env");
    reveal_strlit(": ");
    assert("Invalid line in wifi.env: "@ =~= "Invalid line in "@ + WIFI_FILE_PATH@ + ": "@);
    assert("Unknown key in wifi.env: "@ =~= "Unknown key in "@ + WIFI_FILE_PATH@ + ": "@);
}

/// A line without `=`, apart from blank ones and comments, is a mistake, which is reported with the
/// line.
pub proof fn law_line_without_value_is_mistake(
    contents: &str,
    output: BuildOutput,
    a: Seq<char>,
    line: Seq<char>,
    b: Seq<char>,
)
    requires
        call_ensures(load_wifi_credentials, (contents,), output),
        is_one_line(contents@, a + line + b),
        text::is_blank(a),
        text::has_no_margin(line),
        text::is_blank(b),
        line.len() > 0,
        line[0] != '#',
        !line.contains('='),
    ensures
        fails_with(output, "Invalid line in "@ + WIFI_FILE_PATH@ + ": "@ + line),
{
    lemma_messages_name_file();
    text::lemma_trimmed_margins(a, line, b);
    text::lemma_position(line, '=');
    lemma_wifi_one_line(contents@, a + line + b);
    lemma_gathered_one(wifi_line(a + line + b));
    assert(output@.lines.len() == output.lines@.len());
}

/// A setting with any other key than the two known ones is a mistake, which is reported with the
/// key.
pub proof fn law_unknown_key_is_mistake(
    contents: &str,
    output: BuildOutput,
    a: Seq<char>,
    key: Seq<char>,
    b: Seq<char>,
    rest: Seq<char>,
)
    requires
        call_ensures(load_wifi_credentials, (contents,), output),
        is_one_line(contents@, a + key + b + seq!['='] + rest),
        text::is_blank(a),
        text::has_no_margin(key),
        text::is_blank(b),
        !key.contains('='),
        key.len() > 0 ==> key[0] != '#',
        key != "WIFI_SSID"@,
        key != "WIFI_PASSWORD"@,
    ensures
        fails_with(output, "Unknown key in "@ + WIFI_FILE_PATH@ + ": "@ + key),
{
    lemma_messages_name_file();
    let line = a + key + b + seq!['='] + rest;
    lemma_setting_line(a, key, b, rest);
    lemma_wifi_one_line(contents@, line);
    lemma_gathered_one(wifi_line(line));
    assert(output@.lines.len() == output.lines@.len());
}

/// Outcomes that follow one another are gathered one after the other, up to the first mistake.
proof fn lemma_gathered_join(a: Seq<LineView>, b: Seq<LineView>)
    ensures
        gathered(a).failure is Some ==> gathered(a + b) == gathered(a),
        gathered(a).failure is None ==> gathered(a + b) == (BuildOutputView {
            lines: gathered(a).lines + gathered(b).lines,
            failure: gathered(b).failure,
        }),
    decreases a.len(),
{
    if a.len() == 0 {
        assert(a + b =~= b);
        assert(gathered(a).lines + gathered(b).lines =~= gathered(b).lines);
    } else {
        assert((a + b).skip(1) =~= a.skip(1) + b);
        assert((a + b)[0] == a[0]);
        lemma_gathered_join(a.skip(1), b);
        if let LineView::Emit(lines) = a[0] {
            assert(lines + (gathered(a.skip(1)).lines + gathered(b).lines) =~= lines + gathered(
                a.skip(1),
            ).lines + gathered(b).lines);
        }
    }
}

/// Whether `whole` tells the build what `first` does, and then what `second` does, and fails as
/// `second` does.
pub open spec fn tells_both(whole: BuildOutput, first: BuildOutput, second: BuildOutput) -> bool {
    &&& whole.lines@.len() == first.lines@.len() + second.lines@.len()
    &&& forall|i: int|
        0 <= i < first.lines@.len() ==> whole.lines@[i]@ == (#[trigger] first.lines@[i])@
    &&& forall|i: int|
        0 <= i < second.lines@.len() ==> whole.lines@[first.lines@.len() + i]@ == (
        #[trigger] second.lines@[i])@
    &&& whole.failure is Some <==> second.failure is Some
    &&& whole.failure matches Some(m) ==> m@ == second.failure->0@
}

/// Whether two outputs say the same.
pub open spec fn tells_same(a: BuildOutput, b: BuildOutput) -> bool {
    &&& a.lines@.len() == b.lines@.len()
    &&& forall|i: int| 0 <= i < a.lines@.len() ==> (#[trigger] a.lines@[i])@ == b.lines@[i]@
    &&& a.failure is Some <==> b.failure is Some
    &&& a.failure matches Some(m) ==> m@ == b.failure->0@
}

proof fn lemma_tells_same(a: BuildOutput, b: BuildOutput)
    requires
        a@ == b@,
    ensures
        tells_same(a, b),
{
    assert(a@.lines.len() == a.lines@.len());
    assert(b@.lines.len() == b.lines@.len());
    assert forall|i: int| 0 <= i < a.lines@.len() implies (#[trigger] a.lines@[i])@
        == b.lines@[i]@ by {
        assert(a@.lines[i] == a.lines@[i]@);
        assert(b@.lines[i] == b.lines@[i]@);
    }
}

proof fn lemma_tells_both(whole: BuildOutput, first: BuildOutput, second: BuildOutput)
    requires
        whole@ == (BuildOutputView {
            lines: first@.lines + second@.lines,
            failure: second@.failure,
        }),
    ensures
        tells_both(whole, first, second),
{
    assert(whole@.lines.len() == whole.lines@.len());
    assert(first@.lines.len() == first.lines@.len());
    assert(second@.lines.len() == second.lines@.len());
    assert forall|i: int| 0 <= i < first.lines@.len() implies whole.lines@[i]@ == (
    #[trigger] first.lines@[i])@ by {
        assert(whole@.lines[i] == whole.lines@[i]@);
        assert(first@.lines[i] == first.lines@[i]@);
    }
    assert forall|i: int| 0 <= i < second.lines@.len() implies whole.lines@[first.lines@.len()
        + i]@ == (#[trigger] second.lines@[i])@ by {
        assert(whole@.lines[first.lines@.len() + i] == whole.lines@[first.lines@.len() + i]@);
        assert(second@.lines[i] == second.lines@[i]@);
    }
}

/// The lines of a file of network settings are read one after the other: a file that goes on behind
/// a line feed tells the build what its two parts do, unless the first part holds a mistake, with
/// which the reading ends.
pub proof fn law_network_settings_add_up(
    first: &str,
    second: &str,
    whole: &str,
    a: BuildOutput,
    b: BuildOutput,
    both: BuildOutput,
)
    requires
        call_ensures(load_wifi_credentials, (first,), a),
        call_ensures(load_wifi_credentials, (second,), b),
        call_ensures(load_wifi_credentials, (whole,), both),
        whole@ == first@ + second@,
        first@.len() > 0 ==> first@.last() == '\n',
    ensures
        a.failure is Some ==> tells_same(both, a),
        a.failure is None ==> tells_both(both, a, b),
{
    text::lemma_lines_join(first@, second@);
    assert(wifi_outcomes(whole@) =~= wifi_outcomes(first@) + wifi_outcomes(second@));
    lemma_gathered_join(wifi_outcomes(first@), wifi_outcomes(second@));
    if a.failure is Some {
        lemma_tells_same(both, a);
    } else {
        lemma_tells_both(both, a, b);
    }
}

/// A file of one line leads to what its line leads to.
proof fn lemma_partition_one_line(contents: Seq<char>, line: Seq<char>)
    requires
        is_one_line(contents, line),
        contents.len() > 0,
    ensures
        partition_outcomes(contents) =~= seq![partition_line(line)],
        has_storage(contents) <==> defines_storage(line),
{
    let none = Seq::<char>::empty();
    text::lemma_lines_cut(line, none);
    text::lemma_trimmed_carriage_return(line);
    assert(line + seq!['\n'] + none =~= line + seq!['\n']);
    assert(text::lines_of(contents).len() == 1);
    assert(defines_storage(text::lines_of(contents)[0]) == defines_storage(line));
}

/// White space at the end of a text makes no difference to its first field, once that is trimmed.
#[verifier::spinoff_prover]
proof fn lemma_first_field(cell: Seq<char>, rest: Seq<char>, kept: Seq<char>, after: Seq<char>)
    requires
        !cell.contains(','),
        rest.len() > 0 ==> rest[0] == ',',
        cell + rest == kept + after,
        text::is_blank(after),
    ensures
        text::trimmed(text::fields(kept, ',')[0]) == text::trimmed(cell),
{
    let none = Seq::<char>::empty();
    let all = cell + rest;
    if rest.len() == 0 {
        assert(all =~= cell);
        assert(!kept.contains(',')) by {
            assert forall|j: int| 0 <= j < kept.len() implies kept[j] != ',' by {
                assert(cell[j] == (kept + after)[j]);
                assert(cell.contains(cell[j]));
            }
        }
        text::lemma_fields_cut(kept, ',', none);
        let parts = text::lemma_trimmed_parts(kept);
        let margin = parts.2 + after;
        assert forall|i: int| 0 <= i < margin.len() implies text::is_white_space(
            #[trigger] margin[i],
        ) by {
            if i < parts.2.len() {
                assert(margin[i] == parts.2[i]);
            } else {
                assert(margin[i] == after[i - parts.2.len()]);
            }
        }
        assert(parts.0 + parts.1 + parts.2 + after =~= parts.0 + parts.1 + margin);
        text::lemma_trimmed_margins(parts.0, parts.1, margin);
    } else {
        if kept.len() <= cell.len() {
            let i = cell.len() - kept.len();
            assert((cell + rest).len() == cell.len() + rest.len());
            assert((kept + after).len() == kept.len() + after.len());
            assert(0 <= i < after.len());
            assert((kept + after)[kept.len() + i] == after[i]);
            assert((cell + rest)[cell.len() as int] == ',');
            assert(text::is_white_space(after[i]));
            assert(false);
        }
        let more = kept.skip(cell.len() as int + 1);
        let cut = cell + seq![','] + more;
        assert forall|j: int| 0 <= j < kept.len() implies kept[j] == cut[j] by {
            assert(kept[j] == (kept + after)[j]);
            if j < cell.len() {
                assert((cell + rest)[j] == cell[j]);
            } else if j == cell.len() {
                assert((cell + rest)[j] == rest[0]);
            } else {
                assert(cut[j] == more[j - cell.len() - 1]);
            }
        }
        assert(kept =~= cut);
        text::lemma_fields_cut(cell, ',', more);
    }
}

/// Four cells in front of a text are its first four fields.
proof fn lemma_four_fields(
    a: Seq<char>,
    b: Seq<char>,
    c: Seq<char>,
    d: Seq<char>,
    rest: Seq<char>,
)
    requires
        !a.contains(','),
        !b.contains(','),
        !c.contains(','),
        !d.contains(','),
    ensures
        text::fields(
            a + seq![','] + b + seq![','] + c + seq![','] + d + seq![','] + rest,
            ',',
        ) == seq![a, b, c, d] + text::fields(rest, ','),
{
    let from_d = d + seq![','] + rest;
    let from_c = c + seq![','] + from_d;
    let from_b = b + seq![','] + from_c;
    text::lemma_fields_cut(d, ',', rest);
    text::lemma_fields_cut(c, ',', from_d);
    text::lemma_fields_cut(b, ',', from_c);
    text::lemma_fields_cut(a, ',', from_b);
    assert(a + seq![','] + b + seq![','] + c + seq![','] + d + seq![','] + rest =~= a + seq![',']
        + from_b);
    assert(seq![a] + (seq![b] + (seq![c] + (seq![d] + text::fields(rest, ',')))) =~= seq![
        a,
        b,
        c,
        d,
    ] + text::fields(rest, ','));
}

/// White space around a text without commas brings none.
proof fn lemma_no_comma(p: Seq<char>, x: Seq<char>, q: Seq<char>)
    requires
        text::is_blank(p),
        !x.contains(','),
        text::is_blank(q),
    ensures
        !(p + x + q).contains(','),
{
    let s = p + x + q;
    assert forall|j: int| 0 <= j < s.len() implies s[j] != ',' by {
        if j < p.len() {
            assert(s[j] == p[j]);
        } else if j < p.len() + x.len() {
            assert(s[j] == x[j - p.len()]);
            assert(x.contains(x[j - p.len()]));
        } else {
            assert(s[j] == q[j - p.len() - x.len()]);
        }
    }
}

/// What the row of the storage partition tells the build.
#[verifier::spinoff_prover]
proof fn lemma_partition_row(
    m: Seq<char>,
    a: Seq<char>,
    b: Seq<char>,
    c: Seq<char>,
    start_cell: Seq<char>,
    end_cell: Seq<char>,
    rest: Seq<char>,
)
    requires
        text::is_blank(m),
        !a.contains(','),
        !b.contains(','),
        !c.contains(','),
        !start_cell.contains(','),
        !end_cell.contains(','),
        rest.len() > 0 ==> rest[0] == ',',
    ensures
        ({
            let row = m + "storage"@ + a + seq![','] + b + seq![','] + c + seq![','] + start_cell
                + seq![','] + end_cell + rest;
            &&& defines_storage(row)
            &&& partition_line(row) == LineView::Emit(
                seq![
                    "cargo:rustc-env=STORAGE_PARTITION_START_INDEX="@ + text::trimmed(start_cell),
                    "cargo:rustc-env=STORAGE_PARTITION_END_INDEX="@ + text::trimmed(end_cell),
                ],
            )
        }),
{
    reveal_strlit("storage");
    let none = Seq::<char>::empty();
    let name = "storage"@ + a;
    let row = m + "storage"@ + a + seq![','] + b + seq![','] + c + seq![','] + start_cell + seq![',']
        + end_cell + rest;
    assert(!name.contains(',')) by {
        assert forall|j: int| 0 <= j < name.len() implies name[j] != ',' by {
            if j >= 7 {
                assert(name[j] == a[j - 7]);
                assert(a.contains(a[j - 7]));
            }
        }
    }
    let front = name + seq![','] + b + seq![','] + c + seq![','] + start_cell + seq![','];
    let back = end_cell + rest;
    let parts = text::lemma_trimmed_parts(back);
    let kept = if parts.1.len() > 0 {
        parts.0 + parts.1
    } else {
        none
    };
    let after = if parts.1.len() > 0 {
        parts.2
    } else {
        parts.0 + parts.2
    };
    assert(text::is_blank(after)) by {
        if parts.1.len() == 0 {
            assert forall|i: int| 0 <= i < after.len() implies text::is_white_space(
                #[trigger] after[i],
            ) by {
                if i < parts.0.len() {
                    assert(after[i] == parts.0[i]);
                } else {
                    assert(after[i] == parts.2[i - parts.0.len()]);
                }
            }
        }
    }
    assert(back =~= kept + after);
    let line = front + kept;
    assert(line[0] == 's');
    assert(front.last() == ',');
    assert(line.last() == if parts.1.len() > 0 {
        parts.1.last()
    } else {
        ','
    });
    assert(text::has_no_margin(line));
    assert(front + (kept + after) =~= line + after);
    assert(row =~= m + (front + back));
    assert(row =~= m + line + after);
    text::lemma_trimmed_margins(m, line, after);
    assert(line.take(7) =~= "storage"@);
    lemma_first_column(line);
    lemma_four_fields(name, b, c, start_cell, kept);
    lemma_first_field(end_cell, rest, kept, after);
    assert(text::fields(kept, ',').len() >= 1);
    let cells = columns(line);
    assert(cells[3] == text::trimmed(start_cell));
    assert(cells[4] == text::trimmed(text::fields(kept, ',')[0]));
}

/// The start and the end of the storage partition are what stands in the fourth and the fifth
/// column of its row, whole and without the white space around it, whatever the other columns
/// hold and however many follow.
pub proof fn law_partition_bounds_arrive(
    contents: &str,
    output: BuildOutput,
    m: Seq<char>,
    a: Seq<char>,
    b: Seq<char>,
    c: Seq<char>,
    p: Seq<char>,
    start: Seq<char>,
    q: Seq<char>,
    u: Seq<char>,
    end: Seq<char>,
    v: Seq<char>,
    rest: Seq<char>,
)
    requires
        call_ensures(load_storage_indexes_from_partition_table, (contents,), output),
        is_one_line(
            contents@,
            m + "storage"@ + a + seq![','] + b + seq![','] + c + seq![','] + (p + start + q) + seq![
                ',',
            ] + (u + end + v) + rest,
        ),
        text::is_blank(m),
        !a.contains(','),
        !b.contains(','),
        !c.contains(','),
        text::is_blank(p),
        !start.contains(',') && text::has_no_margin(start),
        text::is_blank(q),
        text::is_blank(u),
        !end.contains(',') && text::has_no_margin(end),
        text::is_blank(v),
        rest.len() > 0 ==> rest[0] == ',',
    ensures
        output.failure is None,
        output.lines@.len() == 2,
        output.lines@[0]@ == "cargo:rustc-env=STORAGE_PARTITION_START_INDEX="@ + start,
        output.lines@[1]@ == "cargo:rustc-env=STORAGE_PARTITION_END_INDEX="@ + end,
{
    let row = m + "storage"@ + a + seq![','] + b + seq![','] + c + seq![','] + (p + start + q)
        + seq![','] + (u + end + v) + rest;
    lemma_no_comma(p, start, q);
    lemma_no_comma(u, end, v);
    lemma_partition_row(m, a, b, c, p + start + q, u + end + v, rest);
    text::lemma_trimmed_margins(p, start, q);
    text::lemma_trimmed_margins(u, end, v);
    reveal_strlit("storage");
    assert(row.len() > 0);
    lemma_partition_one_line(contents@, row);
    lemma_gathered_one(partition_line(row));
    assert(output@.lines.len() == output.lines@.len());
    assert(output@.lines[0] == output.lines@[0]@);
    assert(output@.lines[1] == output.lines@[1]@);
}

/// White space holds no commas, so trimming leaves as many as there were.
proof fn lemma_trimming_keeps_commas(s: Seq<char>)
    ensures
        text::trimmed(s).to_multiset().count(',') == s.to_multiset().count(','),
{
    broadcast use vstd::seq_lib::group_to_multiset_ensures;

    let parts = text::lemma_trimmed_parts(s);
    vstd::seq_lib::lemma_multiset_commutative(parts.0 + parts.1, parts.2);
    vstd::seq_lib::lemma_multiset_commutative(parts.0, parts.1);
    assert(!parts.0.contains(','));
    assert(!parts.2.contains(','));
}

/// A row of the storage partition with fewer than four commas is a mistake.
pub proof fn law_short_partition_row_is_mistake(
    contents: &str,
    output: BuildOutput,
    m: Seq<char>,
    rest: Seq<char>,
)
    requires
        call_ensures(load_storage_indexes_from_partition_table, (contents,), output),
        is_one_line(contents@, m + "storage"@ + rest),
        text::is_blank(m),
        rest.to_multiset().count(',') < 4,
    ensures
        fails_with(
            output,
            "The definition of the partition \"storage\" has an unexpected format"@,
        ),
{
    broadcast use vstd::seq_lib::group_to_multiset_ensures;

    reveal_strlit("storage");
    let row = m + "storage"@ + rest;
    let parts = text::lemma_trimmed_parts(rest);
    let kept = if parts.1.len() > 0 {
        "storage"@ + parts.0 + parts.1
    } else {
        "storage"@
    };
    let after = if parts.1.len() > 0 {
        parts.2
    } else {
        parts.0 + parts.2
    };
    assert(text::is_blank(after)) by {
        if parts.1.len() == 0 {
            assert forall|i: int| 0 <= i < after.len() implies text::is_white_space(
                #[trigger] after[i],
            ) by {
                if i < parts.0.len() {
                    assert(after[i] == parts.0[i]);
                } else {
                    assert(after[i] == parts.2[i - parts.0.len()]);
                }
            }
        }
    }
    assert(row =~= m + kept + after);
    assert(text::has_no_margin(kept));
    text::lemma_trimmed_margins(m, kept, after);
    assert(kept.take(7) =~= "storage"@);
    lemma_first_column(kept);
    text::lemma_count_fields(kept, ',');
    lemma_trimming_keeps_commas(row);
    vstd::seq_lib::lemma_multiset_commutative(m + "storage"@, rest);
    vstd::seq_lib::lemma_multiset_commutative(m, "storage"@);
    assert(!m.contains(','));
    assert(!"storage"@.contains(','));
    lemma_partition_one_line(contents@, row);
    lemma_gathered_one(partition_line(row));
    assert(output@.lines.len() == output.lines@.len());
}

/// A row that begins with anything but `storage` does not define the storage partition, and an
/// empty table does not either: the partition is missing.
pub proof fn law_missing_partition_is_mistake(
    contents: &str,
    output: BuildOutput,
    m: Seq<char>,
    row: Seq<char>,
    n: Seq<char>,
)
    requires
        call_ensures(load_storage_indexes_from_partition_table, (contents,), output),
        is_one_line(contents@, m + row + n),
        text::is_blank(m),
        text::has_no_margin(row),
        text::is_blank(n),
        row.len() < 7 || row.subrange(0, 7) != seq!['s', 't', 'o', 'r', 'a', 'g', 'e'],
    ensures
        fails_with(output, "No partition with the name \"storage\" found"@),
{
    reveal_strlit("storage");
    assert("storage"@ =~= seq!['s', 't', 'o', 'r', 'a', 'g', 'e']);
    if contents@.len() == 0 {
        assert(text::lines_of(contents@).len() == 0);
    } else {
        text::lemma_trimmed_margins(m, row, n);
        assert(row.len() >= 7 ==> row.take(7) =~= row.subrange(0, 7));
        lemma_partition_one_line(contents@, m + row + n);
    }
    assert(!has_storage(contents@));
    assert(output@.lines.len() == output.lines@.len());
}

/// Without a row for the storage partition a table tells the build nothing.
proof fn lemma_nothing_gathered(outcomes: Seq<LineView>)
    requires
        forall|i: int| 0 <= i < outcomes.len() ==> (#[trigger] outcomes[i]) is Skip,
    ensures
        gathered(outcomes) == (BuildOutputView { lines: Seq::empty(), failure: None }),
    decreases outcomes.len(),
{
    if outcomes.len() > 0 {
        assert(outcomes[0] is Skip);
        assert forall|i: int| 0 <= i < outcomes.skip(1).len() implies (
        #[trigger] outcomes.skip(1)[i]) is Skip by {
            assert(outcomes.skip(1)[i] == outcomes[i + 1]);
        }
        lemma_nothing_gathered(outcomes.skip(1));
    }
}

/// The only message that rows can lead to is not the one that the partition is missing.
proof fn lemma_row_messages(outcomes: Seq<LineView>)
    requires
        forall|i: int|
            0 <= i < outcomes.len() ==> ((#[trigger] outcomes[i]) matches LineView::Fail(m) ==> m
                == "The definition of the partition \"storage\" has an unexpected format"@),
    ensures
        gathered(outcomes).failure matches Some(m) ==> m
            != "No partition with the name \"storage\" found"@,
    decreases outcomes.len(),
{
    reveal_strlit("The definition of the partition \"storage\" has an unexpected format");
    reveal_strlit("No partition with the name \"storage\" found");
    assert("The definition of the partition \"storage\" has an unexpected format"@[0] == 'T');
    assert("No partition with the name \"storage\" found"@[0] == 'N');
    if outcomes.len() > 0 {
        assert(outcomes[0] == outcomes[0]);
        assert forall|i: int| 0 <= i < outcomes.skip(1).len() implies ((
        #[trigger] outcomes.skip(1)[i]) matches LineView::Fail(m) ==> m
            == "The definition of the partition \"storage\" has an unexpected format"@) by {
            assert(outcomes.skip(1)[i] == outcomes[i + 1]);
        }
        lemma_row_messages(outcomes.skip(1));
    }
}

/// Whether the output says that the storage partition is missing.
pub open spec fn says_missing(output: BuildOutput) -> bool {
    output.failure matches Some(m) && m@ == "No partition with the name \"storage\" found"@
}

proof fn lemma_missing_means_no_row(contents: Seq<char>)
    ensures
        has_storage(contents) ==> (partition_output(contents).failure matches Some(m) ==> m
            != "No partition with the name \"storage\" found"@),
        !has_storage(contents) ==> gathered(partition_outcomes(contents)) == (BuildOutputView {
            lines: Seq::empty(),
            failure: None,
        }),
{
    let outcomes = partition_outcomes(contents);
    lemma_row_messages(outcomes);
    if !has_storage(contents) {
        assert forall|i: int| 0 <= i < outcomes.len() implies (#[trigger] outcomes[i]) is Skip by {
            assert(!defines_storage(text::lines_of(contents)[i]));
        }
        lemma_nothing_gathered(outcomes);
    }
}

/// The rows of a partition table are read one after the other: a table that goes on behind a line
/// feed tells the build what those of its two parts do that define the storage partition, up to the
/// first mistake, and the partition is missing only if it is missing from both.
pub proof fn law_partition_rows_add_up(
    first: &str,
    second: &str,
    whole: &str,
    a: BuildOutput,
    b: BuildOutput,
    both: BuildOutput,
)
    requires
        call_ensures(load_storage_indexes_from_partition_table, (first,), a),
        call_ensures(load_storage_indexes_from_partition_table, (second,), b),
        call_ensures(load_storage_indexes_from_partition_table, (whole,), both),
        whole@ == first@ + second@,
        first@.len() > 0 ==> first@.last() == '\n',
    ensures
        says_missing(a) ==> tells_same(both, b),
        a.failure is Some && !says_missing(a) ==> tells_same(both, a),
        a.failure is None && says_missing(b) ==> tells_same(both, a),
        a.failure is None && !says_missing(b) ==> tells_both(both, a, b),
{
    let x = text::lines_of(first@);
    let y = text::lines_of(second@);
    text::lemma_lines_join(first@, second@);
    assert(partition_outcomes(whole@) =~= partition_outcomes(first@) + partition_outcomes(second@));
    lemma_gathered_join(partition_outcomes(first@), partition_outcomes(second@));
    lemma_missing_means_no_row(first@);
    lemma_missing_means_no_row(second@);
    assert(has_storage(whole@) <==> has_storage(first@) || has_storage(second@)) by {
        if has_storage(first@) {
            let i = choose|i: int| 0 <= i < x.len() && defines_storage(#[trigger] x[i]);
            assert((x + y)[i] == x[i]);
        }
        if has_storage(second@) {
            let i = choose|i: int| 0 <= i < y.len() && defines_storage(#[trigger] y[i]);
            assert((x + y)[x.len() + i] == y[i]);
        }
        if has_storage(whole@) {
            let i = choose|i: int| 0 <= i < (x + y).len() && defines_storage(#[trigger] (x + y)[i]);
            if i < x.len() {
                assert((x + y)[i] == x[i]);
            } else {
                assert((x + y)[i] == y[i - x.len()]);
            }
        }
    }
    let none = Seq::<Seq<char>>::empty();
    assert(a@.lines + none =~= a@.lines);
    assert(none + b@.lines =~= b@.lines);
    if says_missing(a) {
        lemma_tells_same(both, b);
    } else if a.failure is Some {
        lemma_tells_same(both, a);
    } else if says_missing(b) {
        lemma_tells_same(both, a);
    } else {
        lemma_tells_both(both, a, b);
    }
}

/// Whether the reply to the linker is to say `hint` and end successfully.
pub open spec fn hints(reply: LinkerReply, hint: Seq<char>) -> bool {
    reply matches LinkerReply::Exit { code, hint: said } && code == 0 && (said matches Some(s) && s@
        == hint)
}

/// A linker that does not find a symbol is told what may help, by the beginning of the symbol's
/// name or by the whole of it.
pub proof fn law_linker_is_helped(
    args: Vec<String>,
    reply: LinkerReply,
    rest: Seq<char>,
)
    requires
        call_ensures(linker_be_nice, (&args,), reply),
        args@.len() > 2,
        args@[1]@ == "undefined-symbol"@,
    ensures
        args@[2]@ == "_defmt_"@ + rest ==> hints(
            reply,
            "💡 `defmt` not found - make sure `defmt.x` is added as a linker script and you have included `use defmt_rtt as _;`"@,
        ),
        args@[2]@ == "_stack_start"@ ==> hints(reply, "💡 Is the linker script `linkall.x` missing?"@),
        args@[2]@ == "esp_rtos_"@ + rest ==> hints(
            reply,
            "💡 `esp-radio` has no scheduler enabled. Make sure you have initialized `esp-rtos` or provided an external scheduler."@,
        ),
        args@[2]@ == "embedded_test_linker_file_not_added_to_rustflags"@ ==> hints(
            reply,
            "💡 `embedded-test` not found - make sure `embedded-test.x` is added as a linker script for tests"@,
        ),
        args@[2]@ == "free"@ || args@[2]@ == "malloc"@ || args@[2]@ == "calloc"@ || args@[2]@
            == "get_free_internal_heap_size"@ || args@[2]@ == "malloc_internal"@ || args@[2]@
            == "realloc_internal"@ || args@[2]@ == "calloc_internal"@ || args@[2]@
            == "free_internal"@ ==> hints(
            reply,
            "💡 Did you forget the `esp-alloc` dependency or didn't enable the `compat` feature on it?"@,
        ),
{
    let what = args@[2]@;
    reveal_strlit("_defmt_");
    reveal_strlit("_stack_start");
    reveal_strlit("esp_rtos_");
    reveal_strlit("embedded_test_linker_file_not_added_to_rustflags");
    reveal_strlit("free");
    reveal_strlit("malloc");
    reveal_strlit("calloc");
    reveal_strlit("get_free_internal_heap_size");
    reveal_strlit("malloc_internal");
    reveal_strlit("realloc_internal");
    reveal_strlit("calloc_internal");
    reveal_strlit("free_internal");
    assert("_stack_start"@[0] == '_' && "_stack_start"@[1] == 's');
    assert("embedded_test_linker_file_not_added_to_rustflags"@[0] == 'e');
    assert("embedded_test_linker_file_not_added_to_rustflags"@[1] == 'm');
    if what == "_defmt_"@ + rest {
        assert(what.take(7) =~= "_defmt_"@);
    }
    if what == "esp_rtos_"@ + rest {
        assert(what.take(9) =~= "esp_rtos_"@);
    }
    if text::begins_with(what, "_defmt_"@) {
        assert(what.take(7)[0] == what[0] && what.take(7)[1] == what[1]);
        assert(what[0] == '_' && what[1] == 'd');
    }
    if text::begins_with(what, "esp_rtos_"@) {
        assert(what.take(9)[0] == what[0] && what.take(9)[1] == what[1]);
        assert(what[0] == 'e' && what[1] == 's');
    }
}

/// A linker that does not find another symbol is told nothing, and another error is answered with
/// the code 1. A program that was started without arguments is a step of the build.
pub proof fn law_linker_is_told_nothing_else(args: Vec<String>, reply: LinkerReply)
    requires
        call_ensures(linker_be_nice, (&args,), reply),
        args@.len() != 2,
    ensures
        args@.len() <= 1 <==> reply is Build,
        args@.len() > 2 && args@[1]@ != "undefined-symbol"@ ==> (reply matches LinkerReply::Exit {
            code,
            hint,
        } && code == 1 && hint is None),
        args@.len() > 2 && args@[1]@ == "undefined-symbol"@ && args@[2]@.subrange(0, 7)
            != "_defmt_"@ && args@[2]@ != "_stack_start"@ && args@[2]@.subrange(0, 9) != "esp_rtos_"@
            && args@[2]@ != "embedded_test_linker_file_not_added_to_rustflags"@ && args@[2]@
            != "free"@ && args@[2]@ != "malloc"@ && args@[2]@ != "calloc"@ && args@[2]@
            != "get_free_internal_heap_size"@ && args@[2]@ != "malloc_internal"@ && args@[2]@
            != "realloc_internal"@ && args@[2]@ != "calloc_internal"@ && args@[2]@
            != "free_internal"@ ==> (reply matches LinkerReply::Exit { code, hint } && code == 0
            && hint is None),
{
    reveal_strlit("_defmt_");
    reveal_strlit("esp_rtos_");
    if args@.len() > 2 {
        let what = args@[2]@;
        assert(what.len() >= 7 ==> what.take(7) =~= what.subrange(0, 7));
        assert(what.len() >= 9 ==> what.take(9) =~= what.subrange(0, 9));
    }
}

/// The settings are read from the files that the build keeps them in.
pub proof fn law_settings_have_their_files()
    ensures
        WIFI_FILE_PATH@ == "wifi.env"@,
        PARTITION_TABLE_FILE_PATH@ == "partition-table.csv"@,
{
}

} // verus!
