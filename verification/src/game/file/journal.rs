use crate::text::{str_ends_with, str_starts_with};
use vstd::prelude::*;

verus! {

/// An event read from the game journal. Events of no interest are reported as
/// `Other`.
#[derive(Clone, Copy, Debug, PartialEq, Eq, Structural)]
pub enum Event {
    Docked,
    DockingCancelled,
    DockingGranted,
    DockingTimeout,
    Other,
}

/// The events of interest among the given ones, in their order: all but
/// `Event::Other`.
pub open spec fn events_of_interest(events: Seq<Event>) -> Seq<Event>
    decreases events.len(),
{
    if events.len() == 0 {
        Seq::empty()
    } else if events.last() == Event::Other {
        events_of_interest(events.drop_last())
    } else {
        events_of_interest(events.drop_last()).push(events.last())
    }
}

/// True if `parsed` holds, line by line, what the parser makes of the lines.
pub open spec fn parsed_by<F: Fn(&str) -> Event>(
    parser: F,
    lines: Seq<&str>,
    parsed: Seq<Event>,
) -> bool {
    &&& parsed.len() == lines.len()
    &&& forall|i: int|
        0 <= i < lines.len() ==> call_ensures(parser, (lines[i],), #[trigger] parsed[i])
}

/// Maps the lines read from a journal to journal events using the given
/// parser, filtering out `Event::Other`. The parser must take any line.
pub fn events_from_buf_reader<F: Fn(&str) -> Event>(
    lines: &Vec<&str>,
    parser: F,
) -> (events: Vec<Event>)
    requires
        forall|line: &str| call_requires(parser, (line,)),
    ensures
        exists|parsed: Seq<Event>|
            parsed_by(parser, lines@, parsed) && events@ == events_of_interest(parsed),
{
    let mut events: Vec<Event> = Vec::new();
    let ghost mut parsed: Seq<Event> = Seq::empty();
    let mut position: usize = 0;

    while position < lines.len()
        invariant
            position <= lines@.len(),
            forall|line: &str| call_requires(parser, (line,)),
            parsed_by(parser, lines@.take(position as int), parsed),
            events@ == events_of_interest(parsed),
        decreases lines@.len() - position,
    {
        let event = parser(lines[position]);
        proof {
            let ghost before = parsed;
            parsed = parsed.push(event);
            assert(parsed.drop_last() =~= before);
            assert forall|i: int| 0 <= i < position + 1 implies call_ensures(
                parser,
                (lines@.take(position + 1)[i],),
                #[trigger] parsed[i],
            ) by {
                if i < position {
                    assert(parsed[i] == before[i]);
                    assert(lines@.take(position as int)[i] == lines@.take(position + 1)[i]);
                }
            }
        }
        match event {
            Event::Other => (),
            event => {
                events.push(event);
            },
        }
        position += 1;
    }

    assert(lines@.take(position as int) =~= lines@);
    events
}

/// True if a file of the given name in the journal directory is a journal:
/// its name starts with `Journal` and ends with `.log`.
pub open spec fn names_journal_file(file_name: Seq<char>) -> bool {
    "Journal"@.is_prefix_of(file_name) && ".log"@.is_suffix_of(file_name)
}

/// Returns true if a file of the given name, newly created in the journal
/// directory, is a journal file to read events from.
pub fn is_journal_file_name(file_name: &str) -> (is_journal: bool)
    ensures
        is_journal == names_journal_file(file_name@),
{
    str_starts_with(file_name, "Journal") && str_ends_with(file_name, ".log")
}

} // verus!
