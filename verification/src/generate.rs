//! Message text the bot shows: escalator nouns, status summaries, alert and
//! announcement lines, the status menu body, and platform timestamp tags.

use vstd::prelude::*;

use crate::escalator::{Escalator, EscalatorFloors};
use crate::report::UserReport;
use crate::status::Status;

verus! {

/// The character for one decimal digit.
pub open spec fn digit_char_spec(d: nat) -> char {
    if d == 0 { '0' } else if d == 1 { '1' } else if d == 2 { '2' }
    else if d == 3 { '3' } else if d == 4 { '4' } else if d == 5 { '5' }
    else if d == 6 { '6' } else if d == 7 { '7' } else if d == 8 { '8' } else { '9' }
}

/// The decimal representation of a number, most significant digit first.
pub open spec fn dec_spec(n: nat) -> Seq<char>
    decreases n,
{
    if n < 10 {
        seq![digit_char_spec(n)]
    } else {
        dec_spec(n / 10).push(digit_char_spec(n % 10))
    }
}

/// The string of one decimal digit.
fn digit_str(d: u64) -> (r: &'static str)
    requires
        d < 10,
    ensures
        r@ == seq![digit_char_spec(d as nat)],
{
    let r: &'static str = match d {
        0 => "0",
        1 => "1",
        2 => "2",
        3 => "3",
        4 => "4",
        5 => "5",
        6 => "6",
        7 => "7",
        8 => "8",
        _ => "9",
    };
    proof {
        reveal_strlit("0");
        reveal_strlit("1");
        reveal_strlit("2");
        reveal_strlit("3");
        reveal_strlit("4");
        reveal_strlit("5");
        reveal_strlit("6");
        reveal_strlit("7");
        reveal_strlit("8");
        reveal_strlit("9");
        assert(r@ =~= seq![digit_char_spec(d as nat)]);
    }
    r
}

/// A number in decimal.
pub fn u64_dec(n: u64) -> (s: String)
    ensures
        s@ == dec_spec(n as nat),
    decreases n,
{
    if n < 10 {
        String::from_str(digit_str(n))
    } else {
        let mut s = u64_dec(n / 10);
        s.append(digit_str(n % 10));
        proof {
            assert(s@ =~= dec_spec(n as nat));
        }
        s
    }
}

/// The "start-end" label of a floor pair.
pub open spec fn floors_label_spec(f: EscalatorFloors) -> Seq<char> {
    dec_spec(f.start as nat) + "-"@ + dec_spec(f.end as nat)
}

/// The "start-end" label of a floor pair.
pub fn floors_label(f: EscalatorFloors) -> (s: String)
    ensures
        s@ == floors_label_spec(f),
{
    let mut s = u64_dec(f.start as u64);
    s.append("-");
    let end = u64_dec(f.end as u64);
    s.append(end.as_str());
    proof {
        assert(s@ =~= floors_label_spec(f));
    }
    s
}

/// One escalator as it appears inside a message: its label in backticks.
pub open spec fn nounify_one_spec(f: EscalatorFloors) -> Seq<char> {
    "`"@ + floors_label_spec(f) + "`"@
}

fn nounify_one(f: EscalatorFloors) -> (s: String)
    ensures
        s@ == nounify_one_spec(f),
{
    let mut s = String::from_str("`");
    let label = floors_label(f);
    s.append(label.as_str());
    s.append("`");
    proof {
        assert(s@ =~= nounify_one_spec(f));
    }
    s
}

/// The middle part of an escalator enumeration: ", `a-b`" for each entry.
pub open spec fn nounify_mid_spec(escs: Seq<EscalatorFloors>) -> Seq<char>
    decreases escs.len(),
{
    if escs.len() == 0 {
        Seq::empty()
    } else {
        nounify_mid_spec(escs.drop_last()) + ", "@ + nounify_one_spec(escs.last())
    }
}

/// A collection of escalators as message prose: "`NO` escalators", one
/// escalator with its article, or a comma-separated enumeration ending in
/// ", and `x-y` escalators".
pub open spec fn nounify_spec(escs: Seq<EscalatorFloors>) -> Seq<char> {
    if escs.len() == 0 {
        "`NO` escalators"@
    } else if escs.len() == 1 {
        "The "@ + nounify_one_spec(escs[0]) + " escalator"@
    } else {
        "The "@ + nounify_one_spec(escs[0]) + nounify_mid_spec(
            escs.subrange(1, escs.len() - 1),
        ) + ", and "@ + nounify_one_spec(escs.last()) + " escalators"@
    }
}

/// Turn a collection of escalators into a format that could be put into a
/// message.
pub fn nounify_escalators(escalators: &Vec<EscalatorFloors>) -> (s: String)
    ensures
        s@ == nounify_spec(escalators@),
{
    if escalators.len() == 0 {
        return String::from_str("`NO` escalators");
    }
    if escalators.len() == 1 {
        let mut s = String::from_str("The ");
        let one = nounify_one(escalators[0]);
        s.append(one.as_str());
        s.append(" escalator");
        proof {
            assert(s@ =~= nounify_spec(escalators@));
        }
        return s;
    }
    let mut s = String::from_str("The ");
    let first = nounify_one(escalators[0]);
    s.append(first.as_str());
    let mut i: usize = 1;
    proof {
        assert(escalators@.subrange(1, 1) =~= Seq::<EscalatorFloors>::empty());
    }
    while i < escalators.len() - 1
        invariant
            1 <= i <= escalators@.len() - 1,
            escalators@.len() >= 2,
            s@ == "The "@ + nounify_one_spec(escalators@[0]) + nounify_mid_spec(
                escalators@.subrange(1, i as int),
            ),
        decreases escalators@.len() - i,
    {
        s.append(", ");
        let mid = nounify_one(escalators[i]);
        s.append(mid.as_str());
        proof {
            assert(escalators@.subrange(1, i + 1).drop_last() =~= escalators@.subrange(
                1,
                i as int,
            ));
            assert(escalators@.subrange(1, i + 1).last() == escalators@[i as int]);
            assert(s@ =~= "The "@ + nounify_one_spec(escalators@[0]) + nounify_mid_spec(
                escalators@.subrange(1, i + 1),
            ));
        }
        i = i + 1;
    }
    s.append(", and ");
    let last = nounify_one(escalators[escalators.len() - 1]);
    s.append(last.as_str());
    s.append(" escalators");
    proof {
        assert(s@ =~= nounify_spec(escalators@));
    }
    s
}

/// The glyph for a possibly unknown status.
pub open spec fn status_emoji_of(status: Option<Status>) -> char {
    match status {
        Some(st) => st.emoji_spec(),
        None => crate::record::UNKNOWN_STATUS_EMOJI,
    }
}

/// The backticked status word of a summary line.
pub open spec fn status_word_spec(status: Option<Status>) -> Seq<char> {
    match status {
        Some(Status::Open) => "`OPEN`"@,
        Some(Status::Down) => "`DOWN`"@,
        Some(Status::Blocked) => "`BLOCKED`"@,
        None => "`UNKNOWN`"@,
    }
}

/// A summary line for the escalators sharing one status: the status glyph,
/// the escalators (collapsed to "`ALL`" when every escalator shares the
/// status, "`MANY`" from half of them up), the matching verb form, and the
/// status word.
pub open spec fn summarize_spec(
    status: Option<Status>,
    escs: Seq<EscalatorFloors>,
    escalator_count: nat,
) -> Seq<char> {
    "`"@ + seq![status_emoji_of(status)] + "` "@ + (if escs.len() == escalator_count {
        "`ALL` escalators"@
    } else if escs.len() >= escalator_count / 2 {
        "`MANY` escalators"@
    } else {
        nounify_spec(escs)
    }) + (if escs.len() == 1 {
        " is "@
    } else {
        " are "@
    }) + status_word_spec(status) + "."@
}

/// Generates a summary for a specific status.
pub fn summarize_status(
    status: Option<Status>,
    escalators: &Vec<EscalatorFloors>,
    escalator_count: usize,
) -> (s: String)
    ensures
        s@ == summarize_spec(status, escalators@, escalator_count as nat),
{
    let emoji = match status {
        Some(st) => st.emoji(),
        None => crate::record::UNKNOWN_STATUS_EMOJI,
    };
    let mut s = String::from_str("`");
    s.push(emoji);
    s.append("` ");
    if escalators.len() == escalator_count {
        s.append("`ALL` escalators");
    } else if escalators.len() >= escalator_count / 2 {
        s.append("`MANY` escalators");
    } else {
        let nouns = nounify_escalators(escalators);
        s.append(nouns.as_str());
    }
    if escalators.len() == 1 {
        s.append(" is ");
    } else {
        s.append(" are ");
    }
    match status {
        Some(Status::Open) => s.append("`OPEN`"),
        Some(Status::Down) => s.append("`DOWN`"),
        Some(Status::Blocked) => s.append("`BLOCKED`"),
        None => s.append("`UNKNOWN`"),
    }
    s.append(".");
    proof {
        assert(s@ =~= summarize_spec(status, escalators@, escalator_count as nat));
    }
    s
}

/// The mention or fallback naming a reporter.
pub open spec fn reporter_spec(reporter: Option<u64>) -> Seq<char> {
    match reporter {
        Some(id) => "<@"@ + dec_spec(id as nat) + ">"@,
        None => "an unknown user"@,
    }
}

/// One report as a message line: the status glyph, who reported, and what.
pub open spec fn report_message_spec(report: UserReport) -> Seq<char> {
    "`"@ + seq![report.new_status.emoji_spec()] + "` "@ + reporter_spec(report.reporter)
        + " reported "@ + report.escalators.message_noun_spec() + "."@
}

/// One report as a message line: the status glyph, who reported, and what.
pub fn report_message(report: &UserReport) -> (s: String)
    ensures
        s@ == report_message_spec(*report),
{
    let mut s = String::from_str("`");
    s.push(report.new_status.emoji());
    s.append("` ");
    match report.reporter {
        Some(id) => {
            s.append("<@");
            let id_dec = u64_dec(id);
            s.append(id_dec.as_str());
            s.append(">");
        },
        None => {
            s.append("an unknown user");
        },
    }
    s.append(" reported ");
    let noun = report.escalators.message_noun();
    s.append(noun.as_str());
    s.append(".");
    proof {
        assert(s@ =~= report_message_spec(*report));
    }
    s
}

/// An alert message: the new status glyph, the affected escalators, and the
/// status id.
pub open spec fn alert_spec(report: UserReport) -> Seq<char> {
    "`"@ + seq![report.new_status.emoji_spec()] + "` "@ + nounify_spec(
        report.affected_escalators@,
    ) + (if report.affected_escalators@.len() == 1 {
        " is "@
    } else {
        " are "@
    }) + "`"@ + report.new_status.id_spec() + "`"@
}

/// Generates an alert message from a user report.
pub fn alert(report: &UserReport) -> (s: String)
    ensures
        s@ == alert_spec(*report),
{
    let mut s = String::from_str("`");
    s.push(report.new_status.emoji());
    s.append("` ");
    let noun = nounify_escalators(&report.affected_escalators);
    s.append(noun.as_str());
    if report.affected_escalators.len() == 1 {
        s.append(" is ");
    } else {
        s.append(" are ");
    }
    s.append("`");
    s.append(report.new_status.as_id_str());
    s.append("`");
    proof {
        assert(s@ =~= alert_spec(*report));
    }
    s
}

/// The report lines of an announcement, newline-separated.
pub open spec fn report_lines_spec(reports: Seq<UserReport>) -> Seq<char>
    decreases reports.len(),
{
    if reports.len() == 0 {
        Seq::empty()
    } else if reports.len() == 1 {
        report_message_spec(reports[0])
    } else {
        report_lines_spec(reports.drop_last()) + "\n"@ + report_message_spec(reports.last())
    }
}

/// The truncated report list: the first `shown` reports, each ended by a
/// newline, then a trailer naming how many more there are.
pub open spec fn truncated_lines_spec(reports: Seq<UserReport>, shown: nat) -> Seq<char>
    decreases shown,
{
    if shown == 0 {
        Seq::empty()
    } else {
        truncated_lines_spec(reports, (shown - 1) as nat) + report_message_spec(
            reports[shown - 1],
        ) + "\n"@
    }
}

/// What an announcement shows for a report list: every report when at most
/// `max_displayed` of them, else the first `max_displayed - 1` and a count
/// of the rest.
pub open spec fn announcement_spec(reports: Seq<UserReport>, max_displayed: nat) -> Seq<char> {
    if reports.len() <= max_displayed {
        report_lines_spec(reports)
    } else {
        truncated_lines_spec(reports, (max_displayed - 1) as nat) + "\n*(...and "@ + dec_spec(
            (reports.len() - (max_displayed - 1)) as nat,
        ) + " more)*"@
    }
}

/// Generates a message of a list of recent reports, newest first as given.
pub fn announcement(max_reports_displayed: usize, reports: &Vec<UserReport>) -> (s: String)
    requires
        max_reports_displayed >= 1,
    ensures
        s@ == announcement_spec(reports@, max_reports_displayed as nat),
{
    if reports.len() <= max_reports_displayed {
        let mut s = String::new();
        let mut i: usize = 0;
        while i < reports.len()
            invariant
                i <= reports@.len(),
                s@ == report_lines_spec(reports@.take(i as int)),
            decreases reports@.len() - i,
        {
            if i > 0 {
                s.append("\n");
            }
            let line = report_message(&reports[i]);
            s.append(line.as_str());
            proof {
                assert(reports@.take(i + 1).drop_last() =~= reports@.take(i as int));
                assert(reports@.take(i + 1).last() == reports@[i as int]);
                assert(s@ =~= report_lines_spec(reports@.take(i + 1)));
            }
            i = i + 1;
        }
        proof {
            assert(reports@.take(reports@.len() as int) =~= reports@);
        }
        s
    } else {
        let shown = max_reports_displayed - 1;
        let mut s = String::new();
        let mut i: usize = 0;
        while i < shown
            invariant
                i <= shown,
                shown < reports@.len(),
                s@ == truncated_lines_spec(reports@, i as nat),
            decreases shown - i,
        {
            let line = report_message(&reports[i]);
            s.append(line.as_str());
            s.append("\n");
            proof {
                assert(s@ =~= truncated_lines_spec(reports@, (i + 1) as nat));
            }
            i = i + 1;
        }
        s.append("\n*(...and ");
        let more = u64_dec((reports.len() - shown) as u64);
        s.append(more.as_str());
        s.append(" more)*");
        proof {
            assert(s@ =~= announcement_spec(reports@, max_reports_displayed as nat));
        }
        s
    }
}

/// One "emoji label" menu entry for an escalator with a known status.
pub open spec fn menu_entry_spec(e: Escalator) -> Seq<char> {
    seq![e.status.emoji_spec()] + " "@ + floors_label_spec(e.floors)
}

/// Menu entries two per line: entries within a line are separated by one
/// space, lines by one newline.
pub open spec fn chunk2_lines_spec(entries: Seq<Seq<char>>) -> Seq<char>
    decreases entries.len(),
{
    if entries.len() == 0 {
        Seq::empty()
    } else if entries.len() == 1 {
        entries[0]
    } else if entries.len() == 2 {
        entries[0] + " "@ + entries[1]
    } else {
        entries[0] + " "@ + entries[1] + "\n"@ + chunk2_lines_spec(entries.skip(2))
    }
}

/// The status-menu body for a list of escalators in display order.
pub open spec fn menu_status_spec(escalators: Seq<Escalator>) -> Seq<char> {
    "**Escalator Statuses:**```\n"@ + chunk2_lines_spec(
        escalators.map_values(|e: Escalator| menu_entry_spec(e)),
    ) + "```"@
}

/// Join entry strings two per line: one space within a line, one newline
/// between lines.
#[verifier::rlimit(60)]
pub fn chunk2_join(entries: &Vec<String>) -> (s: String)
    ensures
        s@ == chunk2_lines_spec(entries@.map_values(|e: String| e@)),
{
    let ghost views = entries@.map_values(|e: String| e@);
    let mut s = String::new();
    let mut i: usize = 0;
    proof {
        assert(views.skip(0) =~= views);
        assert(Seq::<char>::empty() + chunk2_lines_spec(views) =~= chunk2_lines_spec(views));
    }
    while i < entries.len()
        invariant
            i <= entries@.len(),
            i % 2 == 0,
            views == entries@.map_values(|e: String| e@),
            s@ == (if i == 0 {
                Seq::<char>::empty()
            } else {
                chunk2_lines_spec(views.take(i as int)) + "\n"@
            }),
            chunk2_lines_spec(views) == (if i == 0 {
                Seq::<char>::empty()
            } else {
                chunk2_lines_spec(views.take(i as int)) + "\n"@
            }) + chunk2_lines_spec(views.skip(i as int)),
        decreases entries@.len() - i,
    {
        s.append(entries[i].as_str());
        if i + 1 < entries.len() {
            s.append(" ");
            s.append(entries[i + 1].as_str());
            if i + 2 < entries.len() {
                s.append("\n");
                proof {
                    let tk = views.take(i + 2);
                    if i == 0 {
                        assert(tk.len() == 2);
                        assert(tk[0] == views[0]);
                        assert(tk[1] == views[1]);
                        assert(chunk2_lines_spec(tk) == views[0] + " "@ + views[1]);
                    } else {
                        lemma_chunk2_take(tk, i as int);
                        assert(tk.take(i as int) =~= views.take(i as int));
                        assert(tk.skip(i as int).len() == 2);
                        assert(tk.skip(i as int)[0] == views[i as int]);
                        assert(tk.skip(i as int)[1] == views[i + 1]);
                        assert(chunk2_lines_spec(tk.skip(i as int)) == views[i as int] + " "@
                            + views[i + 1]);
                    }
                    assert(s@ =~= chunk2_lines_spec(views.take(i + 2)) + "\n"@);
                    lemma_chunk2_take(views, i + 2);
                }
                i = i + 2;
            } else {
                proof {
                    assert(views.skip(i as int).len() == 2);
                    assert(views.skip(i as int)[0] == views[i as int]);
                    assert(views.skip(i as int)[1] == views[i + 1]);
                    assert(chunk2_lines_spec(views.skip(i as int)) == views[i as int] + " "@
                        + views[i + 1]);
                    assert(s@ =~= chunk2_lines_spec(views));
                }
                return s;
            }
        } else {
            proof {
                assert(views.skip(i as int).len() == 1);
                assert(views.skip(i as int)[0] == views[i as int]);
                assert(chunk2_lines_spec(views.skip(i as int)) == views[i as int]);
                assert(s@ =~= chunk2_lines_spec(views));
            }
            return s;
        }
    }
    proof {
        assert(chunk2_lines_spec(views.skip(views.len() as int)) == Seq::<char>::empty());
        assert(s@ =~= chunk2_lines_spec(views));
    }
    s
}

/// Generates a message containing the status of every escalator, two per
/// line, in the order given.
pub fn menu_status(escalators: &Vec<Escalator>) -> (s: String)
    ensures
        s@ == menu_status_spec(escalators@),
{
    let mut entries: Vec<String> = Vec::new();
    let mut i: usize = 0;
    while i < escalators.len()
        invariant
            i <= escalators@.len(),
            entries@.len() == i,
            forall|j: int| 0 <= j < i ==> entries@[j]@ == menu_entry_spec(escalators@[j]),
        decreases escalators@.len() - i,
    {
        let e = escalators[i];
        let mut entry = String::new();
        entry.push(e.status.emoji());
        entry.append(" ");
        let label = floors_label(e.floors);
        entry.append(label.as_str());
        proof {
            assert(entry@ =~= menu_entry_spec(escalators@[i as int]));
        }
        entries.push(entry);
        i = i + 1;
    }
    proof {
        assert(entries@.map_values(|e: String| e@) =~= escalators@.map_values(
            |e: Escalator| menu_entry_spec(e),
        ));
    }
    let body = chunk2_join(&entries);
    let mut s = String::from_str("**Escalator Statuses:**```\n");
    s.append(body.as_str());
    s.append("```");
    proof {
        assert(s@ =~= menu_status_spec(escalators@));
    }
    s
}

/// Splitting the chunked lines after an even, non-final prefix: the full
/// text is the prefix lines, a newline, and the rest.
proof fn lemma_chunk2_take(entries: Seq<Seq<char>>, n: int)
    requires
        0 < n < entries.len(),
        n % 2 == 0,
    ensures
        chunk2_lines_spec(entries) == (if n == 0 {
            Seq::<char>::empty()
        } else {
            chunk2_lines_spec(entries.take(n)) + "\n"@
        }) + chunk2_lines_spec(entries.skip(n)),
    decreases n,
{
    if n == 2 {
        assert(entries.take(2)[0] == entries[0]);
        assert(entries.take(2)[1] == entries[1]);
        assert(entries.take(2).len() == 2);
        assert(chunk2_lines_spec(entries.take(2)) == entries[0] + " "@ + entries[1]);
        assert(entries.len() > 2);
        assert(chunk2_lines_spec(entries) =~= chunk2_lines_spec(entries.take(2)) + "\n"@
            + chunk2_lines_spec(entries.skip(2)));
    } else {
        lemma_chunk2_take(entries.skip(2), n - 2);
        assert(entries.skip(2).take(n - 2) =~= entries.take(n).skip(2));
        assert(entries.skip(2).skip(n - 2) =~= entries.skip(n));
        assert(entries.take(n)[0] == entries[0]);
        assert(entries.take(n)[1] == entries[1]);
        assert(chunk2_lines_spec(entries.take(n)) == entries[0] + " "@ + entries[1] + "\n"@
            + chunk2_lines_spec(entries.take(n).skip(2)));
        assert(chunk2_lines_spec(entries) =~= chunk2_lines_spec(entries.take(n)) + "\n"@
            + chunk2_lines_spec(entries.skip(n)));
    }
}

/// The style letters of a platform timestamp tag.
#[derive(Clone, Copy, PartialEq, Eq, Structural, Debug)]
pub enum Timestamp {
    Default,
    ShortTime,
    LongTime,
    ShortDate,
    LongDate,
    Short,
    Long,
    Relative,
}

impl Timestamp {
    /// The style suffix of the timestamp tag, or `None` for the default.
    pub open spec fn style_spec(self) -> Option<Seq<char>> {
        match self {
            Timestamp::Default => None,
            Timestamp::ShortTime => Some("t"@),
            Timestamp::LongTime => Some("T"@),
            Timestamp::ShortDate => Some("d"@),
            Timestamp::LongDate => Some("D"@),
            Timestamp::Short => Some("f"@),
            Timestamp::Long => Some("F"@),
            Timestamp::Relative => Some("R"@),
        }
    }

    /// The style suffix of the timestamp tag, or `None` for the default.
    pub fn as_style(&self) -> (r: Option<&'static str>)
        ensures
            match r {
                Some(s) => self.style_spec() == Some(s@),
                None => self.style_spec() is None,
            },
    {
        match self {
            Timestamp::Default => None,
            Timestamp::ShortTime => Some("t"),
            Timestamp::LongTime => Some("T"),
            Timestamp::ShortDate => Some("d"),
            Timestamp::LongDate => Some("D"),
            Timestamp::Short => Some("f"),
            Timestamp::Long => Some("F"),
            Timestamp::Relative => Some("R"),
        }
    }

    /// The full timestamp tag for a Unix time: "<t:unix>" or "<t:unix:style>".
    pub open spec fn tag_spec(self, unix: u64) -> Seq<char> {
        "<t:"@ + dec_spec(unix as nat) + (match self.style_spec() {
            Some(style) => ":"@ + style,
            None => Seq::empty(),
        }) + ">"@
    }

    /// Generate a platform timestamp tag at the given Unix time.
    pub fn generate_at(&self, unix: u64) -> (s: String)
        ensures
            s@ == self.tag_spec(unix),
    {
        let mut s = String::from_str("<t:");
        let digits = u64_dec(unix);
        s.append(digits.as_str());
        if let Some(style) = self.as_style() {
            s.append(":");
            s.append(style);
        }
        s.append(">");
        proof {
            assert(s@ =~= self.tag_spec(unix));
        }
        s
    }
}

} // verus!
