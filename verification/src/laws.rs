//! What holds of the library as a whole, beyond what each function promises
//! of itself.

use crate::command::{parsed, CommandErrorView, CommandView};
use crate::component::{
    finished, given_up, rendered, requests_left, smooth_events, taken, template_pattern,
    ActionView, CreateError, CreateUiView, EventView, Progress, PLACEHOLDER_NAME, TEMPLATES,
};
use crate::config::ConfigView;
use crate::options::{assigns, option_of, options_of};
use crate::path::joined;
use crate::processor::{task_of, TaskView};
use crate::text::{occurs_at, occurs_in, replaced};
use vstd::prelude::*;

verus! {

/// A joined path ends with the child it was joined from, whatever the base.
pub proof fn lemma_joined_ends_with_child(base: Seq<char>, child: Seq<char>)
    ensures
        child.is_suffix_of(joined(base, child)),
{
}

/// Text that holds no occurrence of what is to be replaced stays as it is.
pub proof fn lemma_nothing_to_replace(text: Seq<char>, from: Seq<char>, to: Seq<char>)
    requires
        !occurs_in(text, from),
    ensures
        replaced(text, from, to) == text,
    decreases text.len(),
{
    if from.len() > 0 && text.len() >= from.len() {
        let rest = text.skip(1);
        assert forall|at: int| !occurs_at(rest, from, at) by {
            if occurs_at(rest, from, at) {
                assert(rest.subrange(at, at + from.len()) =~= text.subrange(
                    at + 1,
                    at + 1 + from.len(),
                ));
                assert(occurs_at(text, from, at + 1));
            }
        }
        lemma_nothing_to_replace(rest, from, to);
    }
}

/// Where `from` first occurs at `at`, the text before it stays, `to` comes in
/// its place, and replacing goes on behind it.
pub proof fn lemma_first_occurrence_is_replaced(
    text: Seq<char>,
    from: Seq<char>,
    to: Seq<char>,
    at: int,
)
    requires
        from.len() > 0,
        occurs_at(text, from, at),
        forall|earlier: int| 0 <= earlier < at ==> !occurs_at(text, from, earlier),
    ensures
        replaced(text, from, to) == text.take(at) + to + replaced(
            text.skip(at + from.len()),
            from,
            to,
        ),
    decreases at,
{
    if at > 0 {
        let rest = text.skip(1);
        assert(occurs_at(rest, from, at - 1)) by {
            assert(rest.subrange(at - 1, at - 1 + from.len()) =~= text.subrange(
                at,
                at + from.len(),
            ));
        }
        assert forall|earlier: int| 0 <= earlier < at - 1 implies !occurs_at(
            rest,
            from,
            earlier,
        ) by {
            if occurs_at(rest, from, earlier) {
                assert(rest.subrange(earlier, earlier + from.len()) =~= text.subrange(
                    earlier + 1,
                    earlier + 1 + from.len(),
                ));
                assert(occurs_at(text, from, earlier + 1));
            }
        }
        lemma_first_occurrence_is_replaced(rest, from, to, at - 1);
        assert(rest.skip(at - 1 + from.len()) =~= text.skip(at + from.len()));
    }
}

/// Where an argument assigns to a key and no later argument does, the key
/// has the value that this argument gives it.
pub proof fn lemma_last_assignment_stands(
    args: Seq<Seq<char>>,
    at: int,
    key: Seq<char>,
    value: Seq<char>,
)
    requires
        0 <= at < args.len(),
        option_of(args[at]) == Some((key, value)),
        forall|later: int| at < later < args.len() ==> !assigns(#[trigger] args[later], key),
    ensures
        options_of(args).contains_key(key),
        options_of(args)[key] == value,
    decreases args.len(),
{
    let last = args.len() - 1;
    if at < last {
        lemma_last_assignment_stands(args.drop_last(), at, key, value);
    }
}

/// A key that no argument assigns to has no value.
pub proof fn lemma_unassigned_key_has_no_value(args: Seq<Seq<char>>, key: Seq<char>)
    requires
        forall|at: int| 0 <= at < args.len() ==> !assigns(#[trigger] args[at], key),
    ensures
        !options_of(args).contains_key(key),
    decreases args.len(),
{
    if args.len() > 0 {
        lemma_unassigned_key_has_no_value(args.drop_last(), key);
    }
}

/// Every report brings a creation nearer to its end: while it has not ended,
/// the bound on the requests that are left goes down with each answer, so no
/// creation asks for more than eleven things after the first.
pub proof fn lemma_each_report_brings_the_end_nearer(
    job: CreateUiView,
    progress: Progress,
    event: EventView,
)
    ensures
        requests_left(progress) <= 11,
        requests_left(progress) > 0 ==> requests_left(job.next(progress, event).0)
            < requests_left(progress),
        requests_left(progress) == 0 ==> job.next(progress, event).0 == progress,
        requests_left(progress) == 0 <==> progress is Finished || progress is Failed,
{
}

/// A creation that has finished asks for nothing more: whatever is reported
/// to it, it answers that it has finished.
pub proof fn lemma_finish_is_final(
    job: CreateUiView,
    index_updated: bool,
    events: Seq<EventView>,
)
    ensures
        job.answers(Progress::Finished { index_updated }, events).len() == events.len(),
        forall|k: int|
            0 <= k < events.len() ==> #[trigger] job.answers(
                Progress::Finished { index_updated },
                events,
            )[k] == finished(index_updated).1,
    decreases events.len(),
{
    if events.len() > 0 {
        lemma_finish_is_final(job, index_updated, events.drop_first());
    }
}

/// A creation that has failed asks for nothing more: whatever is reported to
/// it, it answers with the failure it ended on.
pub proof fn lemma_failure_is_final(
    job: CreateUiView,
    error: CreateError,
    events: Seq<EventView>,
)
    ensures
        job.answers(Progress::Failed(error), events).len() == events.len(),
        forall|k: int|
            0 <= k < events.len() ==> #[trigger] job.answers(Progress::Failed(error), events)[k]
                == ActionView::Abort(error),
    decreases events.len(),
{
    if events.len() > 0 {
        lemma_failure_is_final(job, error, events.drop_first());
    }
}

/// Created in a directory that holds nothing by the component's name, with
/// every template readable and every file writable, a component comes to
/// exactly this: its directory is made, and each of the four templates is
/// read and written out under the component's directory with the placeholder
/// replaced by the component's name. The export line is then appended to the
/// index file, and the creation finishes whether or not that worked.
pub proof fn lemma_fresh_directory_gets_four_files(
    job: CreateUiView,
    entries: Seq<Seq<char>>,
    texts: Seq<Seq<char>>,
    index_updated: bool,
)
    requires
        !taken(entries, job.component_name),
        texts.len() == TEMPLATES@.len(),
    ensures
        job.requests(
            smooth_events(
                entries,
                texts,
                if index_updated {
                    EventView::Done
                } else {
                    EventView::Failed
                },
            ),
        ) == seq![
            ActionView::ListDir { path: job.target_dir },
            ActionView::CreateDir { path: job.component_dir() },
            ActionView::ReadFile { path: job.template_path(0) },
            ActionView::WriteFile {
                path: job.destination_path(0),
                contents: rendered(texts[0], job.component_name),
            },
            ActionView::ReadFile { path: job.template_path(1) },
            ActionView::WriteFile {
                path: job.destination_path(1),
                contents: rendered(texts[1], job.component_name),
            },
            ActionView::ReadFile { path: job.template_path(2) },
            ActionView::WriteFile {
                path: job.destination_path(2),
                contents: rendered(texts[2], job.component_name),
            },
            ActionView::ReadFile { path: job.template_path(3) },
            ActionView::WriteFile {
                path: job.destination_path(3),
                contents: rendered(texts[3], job.component_name),
            },
            ActionView::AppendFile { path: job.index_path(), contents: job.export_statement() },
            ActionView::Finish { index_updated },
        ],
{
    reveal_with_fuel(CreateUiView::answers, 12);
}

/// The four files of a component are named after it: the placeholder at the
/// head of the first three patterns gives way to the name, and the last
/// pattern holds no placeholder.
pub proof fn lemma_file_names(component_name: Seq<char>)
    ensures
        rendered(template_pattern(0), component_name) == component_name + ".tsx"@,
        rendered(template_pattern(1), component_name) == component_name + ".types.ts"@,
        rendered(template_pattern(2), component_name) == component_name + ".stories.tsx"@,
        rendered(template_pattern(3), component_name) == "index.ts"@,
{
    reveal_strlit("{{component_name}}");
    reveal_strlit("{{component_name}}.tsx");
    reveal_strlit("{{component_name}}.types.ts");
    reveal_strlit("{{component_name}}.stories.tsx");
    reveal_strlit("index.ts");
    reveal_strlit(".tsx");
    reveal_strlit(".types.ts");
    reveal_strlit(".stories.tsx");
    let token = PLACEHOLDER_NAME@;
    lemma_token_then_short_tail(".tsx"@, component_name);
    lemma_token_then_short_tail(".types.ts"@, component_name);
    lemma_token_then_short_tail(".stories.tsx"@, component_name);
    assert(template_pattern(0) =~= token + ".tsx"@);
    assert(template_pattern(1) =~= token + ".types.ts"@);
    assert(template_pattern(2) =~= token + ".stories.tsx"@);
}

/// The placeholder followed by a tail too short to hold another one renders
/// to the name followed by that tail.
proof fn lemma_token_then_short_tail(tail: Seq<char>, component_name: Seq<char>)
    requires
        tail.len() < PLACEHOLDER_NAME@.len(),
    ensures
        rendered(PLACEHOLDER_NAME@ + tail, component_name) == component_name + tail,
{
    reveal_strlit("{{component_name}}");
    let token = PLACEHOLDER_NAME@;
    let text = token + tail;
    assert(occurs_at(text, token, 0)) by {
        assert(text.subrange(0, token.len() as int) =~= token);
    }
    assert(text.skip(token.len() as int) =~= tail);
    assert(replaced(tail, token, component_name) == tail);
}

/// Asked a second time for the same component, the tool refuses at the
/// existence check: a listing that holds the directory which the first
/// creation made ends the second one as already existing, and nothing but
/// that refusal is ever answered.
pub proof fn lemma_second_creation_is_refused(
    job: CreateUiView,
    entries: Seq<Seq<char>>,
    later: Seq<EventView>,
)
    requires
        entries.contains(job.component_dir()),
    ensures
        job.next(Progress::Listing, EventView::Listed(entries)) == given_up(
            CreateError::AlreadyExists,
        ),
        forall|k: int|
            1 <= k < job.requests(seq![EventView::Listed(entries)] + later).len()
                ==> #[trigger] job.requests(seq![EventView::Listed(entries)] + later)[k]
                == ActionView::Abort(CreateError::AlreadyExists),
{
    lemma_joined_ends_with_child(job.target_dir, job.component_name);
    lemma_entry_with_suffix_is_refused(job, entries, job.component_dir(), later);
}

/// The existence check goes by the text of the paths: an entry under the
/// target directory whose name merely ends with the component's name, as
/// `MyButton` ends with `Button`, stands in the way of the component as the
/// component's own directory would.
pub proof fn lemma_longer_name_blocks_its_ending(
    job: CreateUiView,
    entries: Seq<Seq<char>>,
    longer: Seq<char>,
)
    requires
        job.component_name.is_suffix_of(longer),
        entries.contains(joined(job.target_dir, longer)),
    ensures
        job.next(Progress::Listing, EventView::Listed(entries)) == given_up(
            CreateError::AlreadyExists,
        ),
{
    let path = joined(job.target_dir, longer);
    lemma_joined_ends_with_child(job.target_dir, longer);
    lemma_entry_with_suffix_is_refused(job, entries, path, Seq::empty());
}

/// A listing with an entry that ends with the component's name ends the
/// creation, and every later answer repeats the refusal.
proof fn lemma_entry_with_suffix_is_refused(
    job: CreateUiView,
    entries: Seq<Seq<char>>,
    entry: Seq<char>,
    later: Seq<EventView>,
)
    requires
        entries.contains(entry),
        job.component_name.is_suffix_of(entry),
    ensures
        job.next(Progress::Listing, EventView::Listed(entries)) == given_up(
            CreateError::AlreadyExists,
        ),
        forall|k: int|
            1 <= k < job.requests(seq![EventView::Listed(entries)] + later).len()
                ==> #[trigger] job.requests(seq![EventView::Listed(entries)] + later)[k]
                == ActionView::Abort(CreateError::AlreadyExists),
{
    let events = seq![EventView::Listed(entries)] + later;
    assert(events.drop_first() =~= later);
    lemma_failure_is_final(job, CreateError::AlreadyExists, later);
}

/// Where the templates cannot be read, no file is written: once the first
/// template fails to load, the creation ends on that failure, and no request
/// of the whole creation writes or appends to a file, whatever the driver
/// reports afterwards.
pub proof fn lemma_missing_templates_write_nothing(
    job: CreateUiView,
    entries: Seq<Seq<char>>,
    later: Seq<EventView>,
)
    requires
        !taken(entries, job.component_name),
    ensures
        ({
            let all = job.requests(
                seq![EventView::Listed(entries), EventView::Done, EventView::Failed] + later,
            );
            &&& all.len() == 4 + later.len()
            &&& all[3] == ActionView::Abort(CreateError::TemplateUnreadable(0))
            &&& forall|k: int|
                0 <= k < all.len() ==> !(#[trigger] all[k] is WriteFile) && !(all[k] is AppendFile)
        }),
{
    reveal_with_fuel(CreateUiView::answers, 4);
    let events = seq![EventView::Listed(entries), EventView::Done, EventView::Failed] + later;
    let e1 = events.drop_first();
    let e2 = e1.drop_first();
    let e3 = e2.drop_first();
    assert(e3 =~= later);
    let error = CreateError::TemplateUnreadable(0);
    lemma_failure_is_final(job, error, later);
}

/// Started without a command, the tool prints its help text: the argument
/// list names the help command, and that command comes to printing, whatever
/// the configuration.
pub proof fn lemma_no_command_prints_help(config: ConfigView, args: Seq<Seq<char>>)
    requires
        args.len() <= 1,
    ensures
        parsed(args) == Ok::<CommandView, CommandErrorView>(CommandView::Help),
        task_of(config, CommandView::Help) == TaskView::PrintHelp,
{
}

} // verus!
