//! System stepping for debugging: which systems stepping skips, the layout of
//! the stepping overlay, and what each key does to a system.

use disqualified::ShortName;
use vstd::prelude::*;

verus! {

/// A system in a stepped schedule: the schedule's position in the stepping
/// schedule list, and the system's node index in that schedule.
#[derive(Clone, Copy, Debug, PartialEq, Eq, Structural)]
pub struct SystemKey {
    pub schedule: usize,
    pub node: usize,
}

/// The stepping state of one system, and where its overlay text sits.
#[derive(Clone, Copy, Debug, PartialEq, Eq, Structural)]
pub struct SystemSteppingContext {
    pub text_idx_mark: usize,
    pub text_idx_name: usize,
    pub always_run: bool,
    pub never_run: bool,
    pub breakpoint: bool,
}

/// The stepping state of every system shown in the overlay.
pub struct SteppingContext {
    pub systems: Vec<(SystemKey, SystemSteppingContext)>,
}

/// The state of a newly listed system whose cursor mark is text section `mark`.
pub open spec fn fresh_system(mark: int) -> SystemSteppingContext {
    SystemSteppingContext {
        text_idx_mark: mark as usize,
        text_idx_name: (mark + 1) as usize,
        always_run: false,
        never_run: false,
        breakpoint: false,
    }
}

impl SystemSteppingContext {
    /// A system with no stepping behaviour set; its name follows its mark.
    pub fn new(text_mark_idx: usize) -> (ctx: Self)
        requires
            text_mark_idx < usize::MAX,
        ensures
            ctx == fresh_system(text_mark_idx as int),
    {
        SystemSteppingContext {
            text_idx_mark: text_mark_idx,
            text_idx_name: text_mark_idx + 1,
            always_run: false,
            never_run: false,
            breakpoint: false,
        }
    }
}

/// Whether `i` is the first position of `cursor` in `systems`.
pub open spec fn is_first_match(
    systems: Seq<(SystemKey, SystemSteppingContext)>,
    cursor: SystemKey,
    i: int,
) -> bool {
    &&& 0 <= i < systems.len()
    &&& systems[i].0 == cursor
    &&& forall|j: int| 0 <= j < i ==> (#[trigger] systems[j]).0 != cursor
}

/// Whether `cursor` is one of the listed systems.
pub open spec fn is_listed(systems: Seq<(SystemKey, SystemSteppingContext)>, cursor: SystemKey) -> bool {
    exists|j: int| 0 <= j < systems.len() && (#[trigger] systems[j]).0 == cursor
}

impl SteppingContext {
    /// The position of the system that stepping runs next, if it is listed.
    pub fn next_system_idx(&self, cursor: Option<SystemKey>) -> (idx: Option<usize>)
        ensures
            cursor is None ==> idx is None,
            cursor matches Some(c) ==> match idx {
                Some(i) => is_first_match(self.systems@, c, i as int),
                None => !is_listed(self.systems@, c),
            },
    {
        let c = match cursor {
            Some(c) => c,
            None => return None,
        };
        let mut i: usize = 0;
        while i < self.systems.len()
            invariant
                cursor == Some(c),
                0 <= i <= self.systems@.len(),
                forall|j: int| 0 <= j < i ==> (#[trigger] self.systems@[j]).0 != c,
            decreases self.systems@.len() - i,
        {
            if self.systems[i].0 == c {
                return Some(i);
            }
            i = i + 1;
        }
        None
    }
}

/// The stepping overlay has been built once some system is listed.
pub fn is_stepping_initialized(ctx: &SteppingContext) -> (initialized: bool)
    ensures
        initialized == (ctx.systems@.len() > 0),
{
    ctx.systems.len() != 0
}

/// Whether `s` starts with `prefix`.
pub fn starts_with(s: &str, prefix: &str) -> (r: bool)
    ensures
        r == prefix@.is_prefix_of(s@),
{
    let n = prefix.unicode_len();
    let m = s.unicode_len();
    if n > m {
        return false;
    }
    let mut i: usize = 0;
    while i < n
        invariant
            n == prefix@.len(),
            m == s@.len(),
            n <= m,
            0 <= i <= n,
            forall|j: int| 0 <= j < i ==> prefix@[j] == s@[j],
        decreases n - i,
    {
        if prefix.get_char(i) != s.get_char(i) {
            assert(prefix@[i as int] != s@.subrange(0, n as int)[i as int]);
            return false;
        }
        i = i + 1;
    }
    assert(prefix@ =~= s@.subrange(0, n as int));
    true
}

/// Systems whose full names start with one of these prefixes are engine or
/// physics systems that always run, even while stepping.
pub open spec fn always_runs(name: Seq<char>) -> bool {
    ||| "bevy"@.is_prefix_of(name)
    ||| "Pipe"@.is_prefix_of(name)
    ||| "avian2d"@.is_prefix_of(name)
}

/// Whether stepping should ignore a system (by its full name) and always run it.
pub fn should_always_run(name: &str) -> (always: bool)
    ensures
        always == always_runs(name@),
{
    starts_with(name, "bevy") || starts_with(name, "Pipe") || starts_with(name, "avian2d")
}

/// The shortened display form of a full type path, as `disqualified` renders it.
pub uninterp spec fn spec_short_name(full: Seq<char>) -> Seq<char>;

/// `disqualified::ShortName`'s display form of `full` (module paths dropped).
/// The result is named, not described: it is a function of `full` alone.
#[verifier::external_body]
fn short_name(full: &str) -> (short: String)
    ensures
        short@ == spec_short_name(full@),
{
    ShortName::from(full).to_string()
}

/// The overlay text of a system, from the short form of its name.
pub open spec fn name_text(short: Seq<char>) -> Seq<char> {
    short + "\n"@
}

/// The overlay text of a system given the short form of its name.
pub fn system_name_text(short: String) -> (text: String)
    ensures
        text@ == name_text(short@),
{
    let mut text = short;
    text.append("\n");
    text
}

/// A stepped schedule: its label text and its systems as (node index, full name).
pub struct ScheduleSystems {
    pub label: String,
    pub systems: Vec<(usize, String)>,
}

/// A text section of the stepping overlay.
pub enum StepSpan {
    /// A schedule's label line.
    Schedule(String),
    /// The three-character mark in front of a system.
    Cursor,
    /// A system's name line.
    SystemName(String),
}

/// The content of an overlay text section.
pub enum SpanView {
    Schedule(Seq<char>),
    Cursor,
    SystemName(Seq<char>),
}

/// The content of `span`.
pub open spec fn span_view(span: StepSpan) -> SpanView {
    match span {
        StepSpan::Schedule(label) => SpanView::Schedule(label@),
        StepSpan::Cursor => SpanView::Cursor,
        StepSpan::SystemName(text) => SpanView::SystemName(text@),
    }
}

/// The contents of `spans`.
pub open spec fn spans_view(spans: Seq<StepSpan>) -> Seq<SpanView> {
    spans.map_values(|span: StepSpan| span_view(span))
}

/// The overlay sections for `systems`: a mark and a name for each system that
/// stepping does not always run.
pub open spec fn system_spans(systems: Seq<(usize, String)>) -> Seq<SpanView>
    decreases systems.len(),
{
    if systems.len() == 0 {
        Seq::empty()
    } else {
        system_spans(systems.drop_last()) + if always_runs(systems.last().1@) {
            Seq::empty()
        } else {
            seq![SpanView::Cursor, SpanView::SystemName(name_text(spec_short_name(systems.last().1@)))]
        }
    }
}

/// The overlay sections for `schedules`: each schedule's label, then its systems.
pub open spec fn layout_spans(schedules: Seq<ScheduleSystems>) -> Seq<SpanView>
    decreases schedules.len(),
{
    if schedules.len() == 0 {
        Seq::empty()
    } else {
        layout_spans(schedules.drop_last()) + seq![SpanView::Schedule(schedules.last().label@)]
            + system_spans(schedules.last().systems@)
    }
}

/// The systems of schedule `s` that stepping lists, with their full names.
pub open spec fn listed_systems(s: int, systems: Seq<(usize, String)>) -> Seq<(SystemKey, Seq<char>)>
    decreases systems.len(),
{
    if systems.len() == 0 {
        Seq::empty()
    } else {
        listed_systems(s, systems.drop_last()) + if always_runs(systems.last().1@) {
            Seq::empty()
        } else {
            seq![(SystemKey { schedule: s as usize, node: systems.last().0 }, systems.last().1@)]
        }
    }
}

/// The systems of `schedules` that stepping lists, in overlay order.
pub open spec fn listed_all(schedules: Seq<ScheduleSystems>) -> Seq<(SystemKey, Seq<char>)>
    decreases schedules.len(),
{
    if schedules.len() == 0 {
        Seq::empty()
    } else {
        listed_all(schedules.drop_last()) + listed_systems(
            schedules.len() - 1,
            schedules.last().systems@,
        )
    }
}

/// The systems of schedule `s` that always run.
pub open spec fn skipped_systems(s: int, systems: Seq<(usize, String)>) -> Seq<SystemKey>
    decreases systems.len(),
{
    if systems.len() == 0 {
        Seq::empty()
    } else {
        skipped_systems(s, systems.drop_last()) + if always_runs(systems.last().1@) {
            seq![SystemKey { schedule: s as usize, node: systems.last().0 }]
        } else {
            Seq::empty()
        }
    }
}

/// The systems of `schedules` that always run.
pub open spec fn skipped_all(schedules: Seq<ScheduleSystems>) -> Seq<SystemKey>
    decreases schedules.len(),
{
    if schedules.len() == 0 {
        Seq::empty()
    } else {
        skipped_all(schedules.drop_last()) + skipped_systems(
            schedules.len() - 1,
            schedules.last().systems@,
        )
    }
}

/// Listed system `k` (entry `base + k` of `ctxs`) is `expected[k]`, fresh,
/// and its mark and name point at its own overlay sections; marks increase.
pub open spec fn marks_point_at_names(
    spans: Seq<SpanView>,
    ctxs: Seq<(SystemKey, SystemSteppingContext)>,
    base: int,
    expected: Seq<(SystemKey, Seq<char>)>,
) -> bool {
    &&& ctxs.len() == base + expected.len()
    &&& forall|k: int|
        0 <= k < expected.len() ==> {
            let entry = #[trigger] ctxs[base + k];
            let mark = entry.1.text_idx_mark as int;
            &&& entry.0 == expected[k].0
            &&& entry.1 == fresh_system(mark)
            &&& 1 <= mark < spans.len()
            &&& spans[mark - 1] == SpanView::Cursor
            &&& spans[mark] == SpanView::SystemName(name_text(spec_short_name(expected[k].1)))
        }
    &&& forall|k1: int, k2: int|
        0 <= k1 < k2 < expected.len() ==> (#[trigger] ctxs[base + k1]).1.text_idx_mark < (
        #[trigger] ctxs[base + k2]).1.text_idx_mark
}

/// The overlay sections, in order, and the systems that stepping always runs.
pub struct SteppingLayout {
    pub spans: Vec<StepSpan>,
    pub always_run: Vec<SystemKey>,
}

proof fn lemma_marks_extend(
    spans: Seq<SpanView>,
    more: Seq<SpanView>,
    ctxs: Seq<(SystemKey, SystemSteppingContext)>,
    base: int,
    expected: Seq<(SystemKey, Seq<char>)>,
)
    requires
        marks_point_at_names(spans, ctxs, base, expected),
    ensures
        marks_point_at_names(spans + more, ctxs, base, expected),
{
    assert forall|k: int| 0 <= k < expected.len() implies {
        let entry = #[trigger] ctxs[base + k];
        let mark = entry.1.text_idx_mark as int;
        &&& 1 <= mark < (spans + more).len()
        &&& (spans + more)[mark - 1] == SpanView::Cursor
        &&& (spans + more)[mark] == SpanView::SystemName(name_text(spec_short_name(expected[k].1)))
    } by {
        let mark = ctxs[base + k].1.text_idx_mark as int;
        assert((spans + more)[mark - 1] == spans[mark - 1]);
        assert((spans + more)[mark] == spans[mark]);
    }
}

/// Lay out the stepping overlay for `schedules`, listing in `ctx` every system
/// that stepping does not always run, each pointing at its own mark and name
/// sections.
pub fn build_stepping_ui(schedules: &Vec<ScheduleSystems>, ctx: &mut SteppingContext) -> (layout:
    SteppingLayout)
    ensures
        spans_view(layout.spans@) == layout_spans(schedules@),
        layout.always_run@ == skipped_all(schedules@),
        final(ctx).systems@.subrange(0, old(ctx).systems@.len() as int) == old(ctx).systems@,
        marks_point_at_names(
            spans_view(layout.spans@),
            final(ctx).systems@,
            old(ctx).systems@.len() as int,
            listed_all(schedules@),
        ),
{
    let mut spans: Vec<StepSpan> = Vec::new();
    let mut always_run: Vec<SystemKey> = Vec::new();
    let ghost base = ctx.systems@.len() as int;
    let ghost old_systems = ctx.systems@;
    let mut s: usize = 0;
    assert(spans_view(spans@) =~= Seq::<SpanView>::empty());
    while s < schedules.len()
        invariant
            0 <= s <= schedules@.len(),
            base == old_systems.len(),
            spans_view(spans@) == layout_spans(schedules@.take(s as int)),
            always_run@ == skipped_all(schedules@.take(s as int)),
            ctx.systems@.subrange(0, base) == old_systems,
            marks_point_at_names(
                spans_view(spans@),
                ctx.systems@,
                base,
                listed_all(schedules@.take(s as int)),
            ),
        decreases schedules@.len() - s,
    {
        let sched = &schedules[s];
        proof {
            assert(schedules@.take(s + 1).drop_last() =~= schedules@.take(s as int));
            lemma_marks_extend(
                spans_view(spans@),
                seq![SpanView::Schedule(sched.label@)],
                ctx.systems@,
                base,
                listed_all(schedules@.take(s as int)),
            );
        }
        let ghost prev_spans = spans_view(spans@);
        spans.push(StepSpan::Schedule(sched.label.clone()));
        assert(spans_view(spans@) =~= prev_spans + seq![SpanView::Schedule(sched.label@)]);
        let ghost head = spans_view(spans@);
        let ghost prev_always = always_run@;
        let ghost prev_listed = listed_all(schedules@.take(s as int));
        let mut j: usize = 0;
        assert(sched.systems@.take(0) =~= Seq::<(usize, String)>::empty());
        assert(head + system_spans(sched.systems@.take(0)) =~= head);
        assert(prev_listed + listed_systems(s as int, sched.systems@.take(0)) =~= prev_listed);
        assert(prev_always + skipped_systems(s as int, sched.systems@.take(0)) =~= prev_always);
        while j < sched.systems.len()
            invariant
                0 <= j <= sched.systems@.len(),
                sched == schedules@[s as int],
                base == old_systems.len(),
                ctx.systems@.subrange(0, base) == old_systems,
                spans_view(spans@) == head + system_spans(sched.systems@.take(j as int)),
                always_run@ == prev_always + skipped_systems(s as int, sched.systems@.take(j as int)),
                marks_point_at_names(
                    spans_view(spans@),
                    ctx.systems@,
                    base,
                    prev_listed + listed_systems(s as int, sched.systems@.take(j as int)),
                ),
            decreases sched.systems@.len() - j,
        {
            let (node, name) = &sched.systems[j];
            let key = SystemKey { schedule: s, node: *node };
            let ghost systems_j = sched.systems@.take(j as int);
            let ghost systems_j1 = sched.systems@.take(j + 1);
            proof {
                assert(systems_j1.drop_last() =~= systems_j);
                assert(systems_j1.last() == sched.systems@[j as int]);
            }
            if should_always_run(name.as_str()) {
                always_run.push(key);
                assert(always_run@ =~= prev_always + skipped_systems(s as int, systems_j1));
                assert(system_spans(systems_j1) =~= system_spans(systems_j));
                assert(listed_systems(s as int, systems_j1) =~= listed_systems(s as int, systems_j));
            } else {
                let ghost before = spans_view(spans@);
                let ghost listed_before = prev_listed + listed_systems(s as int, systems_j);
                spans.push(StepSpan::Cursor);
                let text = system_name_text(short_name(name.as_str()));
                spans.push(StepSpan::SystemName(text));
                let mark = spans.len() - 1;
                let ghost after = spans_view(spans@);
                proof {
                    assert(after =~= before + seq![
                        SpanView::Cursor,
                        SpanView::SystemName(name_text(spec_short_name(name@))),
                    ]);
                    lemma_marks_extend(
                        before,
                        seq![SpanView::Cursor, SpanView::SystemName(name_text(spec_short_name(name@)))],
                        ctx.systems@,
                        base,
                        listed_before,
                    );
                    assert(system_spans(systems_j1) =~= system_spans(systems_j) + seq![
                        SpanView::Cursor,
                        SpanView::SystemName(name_text(spec_short_name(name@))),
                    ]);
                    assert(after =~= head + system_spans(systems_j1));
                }
                let ghost prev_ctx = ctx.systems@;
                ctx.systems.push((key, SystemSteppingContext::new(mark)));
                proof {
                    let listed_after = prev_listed + listed_systems(s as int, systems_j1);
                    assert(listed_systems(s as int, systems_j1) =~= listed_systems(s as int, systems_j)
                        + seq![(key, name@)]);
                    assert(listed_after =~= listed_before + seq![(key, name@)]);
                    assert(ctx.systems@.subrange(0, base) =~= old_systems) by {
                        assert(ctx.systems@.subrange(0, base) =~= prev_ctx.subrange(0, base));
                    }
                    assert forall|k: int| 0 <= k < listed_after.len() implies {
                        let entry = #[trigger] ctx.systems@[base + k];
                        let m = entry.1.text_idx_mark as int;
                        &&& entry.0 == listed_after[k].0
                        &&& entry.1 == fresh_system(m)
                        &&& 1 <= m < after.len()
                        &&& after[m - 1] == SpanView::Cursor
                        &&& after[m] == SpanView::SystemName(
                            name_text(spec_short_name(listed_after[k].1)),
                        )
                    } by {
                        if k < listed_before.len() {
                            assert(ctx.systems@[base + k] == prev_ctx[base + k]);
                            assert(listed_after[k] == listed_before[k]);
                        } else {
                            assert(ctx.systems@[base + k] == (key, fresh_system(mark as int)));
                        }
                    }
                    assert forall|k1: int, k2: int|
                        0 <= k1 < k2 < listed_after.len() implies (
                    #[trigger] ctx.systems@[base + k1]).1.text_idx_mark < (
                    #[trigger] ctx.systems@[base + k2]).1.text_idx_mark by {
                        if k2 < listed_before.len() {
                            assert(ctx.systems@[base + k1] == prev_ctx[base + k1]);
                            assert(ctx.systems@[base + k2] == prev_ctx[base + k2]);
                        } else {
                            assert(ctx.systems@[base + k1] == prev_ctx[base + k1]);
                            assert(prev_ctx[base + k1].1.text_idx_mark < before.len());
                        }
                    }
                }
                assert(always_run@ =~= prev_always + skipped_systems(s as int, systems_j1));
            }
            j = j + 1;
        }
        proof {
            assert(sched.systems@.take(sched.systems@.len() as int) =~= sched.systems@);
            assert(schedules@.take(s + 1).last() == sched);
            assert(layout_spans(schedules@.take(s + 1)) =~= prev_spans + seq![
                SpanView::Schedule(sched.label@),
            ] + system_spans(sched.systems@));
            assert(skipped_all(schedules@.take(s + 1)) =~= prev_always + skipped_systems(
                s as int,
                sched.systems@,
            ));
            assert(listed_all(schedules@.take(s + 1)) =~= prev_listed + listed_systems(
                s as int,
                sched.systems@,
            ));
        }
        s = s + 1;
    }
    assert(schedules@.take(schedules@.len() as int) =~= schedules@);
    SteppingLayout { spans, always_run }
}

/// The keys, just pressed this frame, that stepping reacts to.
#[derive(Clone, Copy, Default)]
pub struct SteppingKeys {
    /// `/`: log the stepping state.
    pub slash: bool,
    /// `` ` ``: toggle stepping.
    pub backquote: bool,
    /// Space: run to the end of the frame.
    pub space: bool,
    /// S: run the next system.
    pub key_s: bool,
    /// Q: never run the next system.
    pub key_q: bool,
    /// W: clear the next system's behaviour (keeping its breakpoint).
    pub key_w: bool,
    /// E: always run the next system.
    pub key_e: bool,
    /// A: clear the next system's breakpoint.
    pub key_a: bool,
    /// D: set a breakpoint on the next system.
    pub key_d: bool,
}

/// An instruction for the stepping controller.
#[derive(Clone, Copy, Debug, PartialEq, Eq, Structural)]
pub enum SteppingCommand {
    LogState,
    Enable,
    Disable,
    ContinueFrame,
    StepFrame,
    NeverRunNode(SystemKey),
    ClearNode(SystemKey),
    AlwaysRunNode(SystemKey),
    SetBreakpointNode(SystemKey),
    ClearBreakpointNode(SystemKey),
}

/// Whether stepping is enabled after this frame's keys.
pub open spec fn enabled_after(keys: SteppingKeys, enabled: bool) -> bool {
    if keys.backquote {
        !enabled
    } else {
        enabled
    }
}

/// The commands for logging, toggling and advancing the frame.
pub open spec fn frame_commands(keys: SteppingKeys, enabled: bool) -> Seq<SteppingCommand> {
    (if keys.slash {
        seq![SteppingCommand::LogState]
    } else {
        Seq::empty()
    }) + (if keys.backquote {
        seq![
            if enabled {
                SteppingCommand::Disable
            } else {
                SteppingCommand::Enable
            },
        ]
    } else {
        Seq::empty()
    }) + (if !enabled_after(keys, enabled) {
        Seq::empty()
    } else if keys.space {
        seq![SteppingCommand::ContinueFrame]
    } else if keys.key_s {
        seq![SteppingCommand::StepFrame]
    } else {
        Seq::empty()
    })
}

/// The commands for the next system `key`, and its new stepping state; the
/// first of Q, W, E, A, D that was pressed decides.
pub open spec fn system_key_effect(keys: SteppingKeys, key: SystemKey, sys: SystemSteppingContext) -> (
    Seq<SteppingCommand>,
    SystemSteppingContext,
) {
    if keys.key_q {
        (
            seq![SteppingCommand::NeverRunNode(key)],
            SystemSteppingContext { always_run: false, never_run: true, ..sys },
        )
    } else if keys.key_w {
        (
            seq![SteppingCommand::ClearNode(key)] + if sys.breakpoint {
                seq![SteppingCommand::SetBreakpointNode(key)]
            } else {
                Seq::empty()
            },
            sys,
        )
    } else if keys.key_e {
        (
            seq![SteppingCommand::AlwaysRunNode(key)],
            SystemSteppingContext { always_run: true, never_run: false, ..sys },
        )
    } else if keys.key_a {
        (
            seq![SteppingCommand::ClearBreakpointNode(key)],
            SystemSteppingContext { breakpoint: false, ..sys },
        )
    } else if keys.key_d {
        (
            seq![SteppingCommand::SetBreakpointNode(key)] + (if sys.always_run {
                seq![SteppingCommand::AlwaysRunNode(key)]
            } else {
                Seq::empty()
            }) + (if sys.never_run {
                seq![SteppingCommand::NeverRunNode(key)]
            } else {
                Seq::empty()
            }),
            SystemSteppingContext { breakpoint: true, ..sys },
        )
    } else {
        (Seq::empty(), sys)
    }
}

/// Push the commands for the next system `key` and return its new state.
fn push_system_key_commands(
    keys: &SteppingKeys,
    key: SystemKey,
    system: SystemSteppingContext,
    commands: &mut Vec<SteppingCommand>,
) -> (updated: SystemSteppingContext)
    ensures
        final(commands)@ == old(commands)@ + system_key_effect(*keys, key, system).0,
        updated == system_key_effect(*keys, key, system).1,
{
    let ghost before = commands@;
    let mut system = system;
    if keys.key_q {
        commands.push(SteppingCommand::NeverRunNode(key));
        system.always_run = false;
        system.never_run = true;
    } else if keys.key_w {
        commands.push(SteppingCommand::ClearNode(key));
        if system.breakpoint {
            commands.push(SteppingCommand::SetBreakpointNode(key));
        }
    } else if keys.key_e {
        commands.push(SteppingCommand::AlwaysRunNode(key));
        system.always_run = true;
        system.never_run = false;
    } else if keys.key_a {
        commands.push(SteppingCommand::ClearBreakpointNode(key));
        system.breakpoint = false;
    } else if keys.key_d {
        commands.push(SteppingCommand::SetBreakpointNode(key));
        system.breakpoint = true;
        if system.always_run {
            commands.push(SteppingCommand::AlwaysRunNode(key));
        }
        if system.never_run {
            commands.push(SteppingCommand::NeverRunNode(key));
        }
    }
    system
}

/// The frame commands for `keys`, and whether stepping is enabled afterwards.
fn push_frame_commands(keys: &SteppingKeys, enabled: bool) -> (out: (Vec<SteppingCommand>, bool))
    ensures
        out.0@ == frame_commands(*keys, enabled),
        out.1 == enabled_after(*keys, enabled),
{
    let mut commands: Vec<SteppingCommand> = Vec::new();
    if keys.slash {
        commands.push(SteppingCommand::LogState);
    }
    let mut now_enabled = enabled;
    if keys.backquote {
        if enabled {
            commands.push(SteppingCommand::Disable);
            now_enabled = false;
        } else {
            commands.push(SteppingCommand::Enable);
            now_enabled = true;
        }
    }
    if now_enabled {
        if keys.space {
            commands.push(SteppingCommand::ContinueFrame);
        } else if keys.key_s {
            commands.push(SteppingCommand::StepFrame);
        }
    }
    assert(commands@ =~= frame_commands(*keys, enabled));
    (commands, now_enabled)
}

/// React to this frame's stepping keys, given whether stepping is enabled and
/// which system stepping runs next: the commands for the stepping controller,
/// in order, with the next system's stepping state updated in `ctx`.
pub fn handle_stepping_input(
    keys: &SteppingKeys,
    enabled: bool,
    cursor: Option<SystemKey>,
    ctx: &mut SteppingContext,
) -> (commands: Vec<SteppingCommand>)
    ensures
        !enabled_after(*keys, enabled) || cursor is None || !is_listed(old(ctx).systems@, cursor->0)
            ==> commands@ == frame_commands(*keys, enabled) && final(ctx).systems@ == old(ctx).systems@,
        forall|i: int|
            enabled_after(*keys, enabled) && cursor is Some && is_first_match(
                old(ctx).systems@,
                cursor->0,
                i,
            ) ==> {
                let effect = system_key_effect(*keys, old(ctx).systems@[i].0, old(ctx).systems@[i].1);
                &&& commands@ == frame_commands(*keys, enabled) + effect.0
                &&& final(ctx).systems@ == old(ctx).systems@.update(
                    i,
                    (old(ctx).systems@[i].0, effect.1),
                )
            },
{
    let (mut commands, now_enabled) = push_frame_commands(keys, enabled);
    if !now_enabled {
        return commands;
    }
    let idx = match ctx.next_system_idx(cursor) {
        Some(idx) => idx,
        None => return commands,
    };
    let (key, system) = ctx.systems[idx];
    let updated = push_system_key_commands(keys, key, system, &mut commands);
    ctx.systems.set(idx, (key, updated));
    proof {
        assert forall|i: int|
            is_first_match(old(ctx).systems@, cursor->0, i) implies i == idx as int by {
            if i < idx {
                assert(old(ctx).systems@[i].0 != cursor->0);
            } else if i > idx {
                assert(old(ctx).systems@[idx as int].0 != cursor->0);
            }
        }
    }
    commands
}

/// The visibility of a UI node.
#[derive(Clone, Copy, Debug, PartialEq, Eq, Structural)]
pub enum UiVisibility {
    Inherited,
    Hidden,
    Visible,
}

/// The overlay is shown exactly while stepping is enabled.
pub fn stepping_ui_visibility(enabled: bool, visibility: UiVisibility) -> (shown: UiVisibility)
    ensures
        shown == (if enabled && visibility == UiVisibility::Hidden {
            UiVisibility::Inherited
        } else if !enabled && visibility != UiVisibility::Hidden {
            UiVisibility::Hidden
        } else {
            visibility
        }),
{
    match (enabled, visibility) {
        (true, UiVisibility::Hidden) => UiVisibility::Inherited,
        (false, UiVisibility::Inherited) => UiVisibility::Hidden,
        (false, UiVisibility::Visible) => UiVisibility::Hidden,
        _ => visibility,
    }
}

/// The colour class of a system's overlay line.
#[derive(Clone, Copy, Debug, PartialEq, Eq, Structural)]
pub enum MarkColor {
    /// The system stepping runs next.
    Next,
    AlwaysRun,
    NeverRun,
    /// Any other system.
    System,
}

/// The mark text and colour of a system's overlay line: the next system is
/// marked with an arrow (`-@` when it has a breakpoint), others by their
/// behaviour.
pub open spec fn mark_spec(is_next: bool, system: SystemSteppingContext) -> (Seq<char>, MarkColor) {
    if is_next {
        (
            if system.breakpoint {
                "-@ "@
            } else {
                "-> "@
            },
            MarkColor::Next,
        )
    } else if system.always_run {
        (" + "@, MarkColor::AlwaysRun)
    } else if system.never_run {
        (" - "@, MarkColor::NeverRun)
    } else if system.breakpoint {
        (" @ "@, MarkColor::System)
    } else {
        ("   "@, MarkColor::System)
    }
}

/// The mark text and colour of a system's overlay line.
pub fn system_mark(is_next: bool, system: &SystemSteppingContext) -> (mark: (&'static str, MarkColor))
    ensures
        (mark.0@, mark.1) == mark_spec(is_next, *system),
{
    if is_next {
        (
            if system.breakpoint {
                "-@ "
            } else {
                "-> "
            },
            MarkColor::Next,
        )
    } else if system.always_run {
        (" + ", MarkColor::AlwaysRun)
    } else if system.never_run {
        (" - ", MarkColor::NeverRun)
    } else if system.breakpoint {
        (" @ ", MarkColor::System)
    } else {
        ("   ", MarkColor::System)
    }
}

/// New text for one system's overlay line: the mark text for section
/// `text_idx_mark`, and the colour for both its mark and name sections.
pub struct MarkUpdate {
    pub text_idx_mark: usize,
    pub text_idx_name: usize,
    pub mark: &'static str,
    pub color: MarkColor,
}

/// The overlay updates for every listed system while stepping is enabled,
/// with the system at `next_system_idx` marked as next.
pub fn update_stepping_ui(ctx: &SteppingContext, next_system_idx: usize) -> (updates: Vec<MarkUpdate>)
    ensures
        updates@.len() == ctx.systems@.len(),
        forall|i: int|
            0 <= i < updates@.len() ==> {
                let sys = ctx.systems@[i].1;
                &&& (#[trigger] updates@[i]).text_idx_mark == sys.text_idx_mark
                &&& updates@[i].text_idx_name == sys.text_idx_name
                &&& (updates@[i].mark@, updates@[i].color) == mark_spec(i == next_system_idx, sys)
            },
{
    let mut updates: Vec<MarkUpdate> = Vec::new();
    let mut i: usize = 0;
    while i < ctx.systems.len()
        invariant
            0 <= i <= ctx.systems@.len(),
            updates@.len() == i,
            forall|j: int|
                0 <= j < i ==> {
                    let sys = ctx.systems@[j].1;
                    &&& (#[trigger] updates@[j]).text_idx_mark == sys.text_idx_mark
                    &&& updates@[j].text_idx_name == sys.text_idx_name
                    &&& (updates@[j].mark@, updates@[j].color) == mark_spec(
                        j == next_system_idx,
                        sys,
                    )
                },
        decreases ctx.systems@.len() - i,
    {
        let system = &ctx.systems[i].1;
        let (mark, color) = system_mark(i == next_system_idx, system);
        updates.push(
            MarkUpdate {
                text_idx_mark: system.text_idx_mark,
                text_idx_name: system.text_idx_name,
                mark,
                color,
            },
        );
        i = i + 1;
    }
    updates
}

/// Setting a breakpoint with D re-sets the behaviour the overlay records for
/// the system: the breakpoint first, then always-run exactly when the system
/// is recorded as always run, and never-run exactly when it is recorded as
/// never run. W re-sets a recorded breakpoint after clearing the system.
pub proof fn law_breakpoint_keeps_recorded_behaviour(keys: SteppingKeys, key: SystemKey, sys: SystemSteppingContext)
    ensures
        !keys.key_q && !keys.key_w && !keys.key_e && !keys.key_a && keys.key_d ==> {
            let cmds = system_key_effect(keys, key, sys).0;
            &&& cmds.len() >= 1
            &&& cmds[0] == SteppingCommand::SetBreakpointNode(key)
            &&& cmds.contains(SteppingCommand::AlwaysRunNode(key)) <==> sys.always_run
            &&& cmds.contains(SteppingCommand::NeverRunNode(key)) <==> sys.never_run
            &&& sys.always_run ==> cmds[1] == SteppingCommand::AlwaysRunNode(key)
            &&& system_key_effect(keys, key, sys).1.always_run == sys.always_run
            &&& system_key_effect(keys, key, sys).1.never_run == sys.never_run
        },
        !keys.key_q && keys.key_w ==> {
            let cmds = system_key_effect(keys, key, sys).0;
            &&& cmds[0] == SteppingCommand::ClearNode(key)
            &&& cmds.contains(SteppingCommand::SetBreakpointNode(key)) <==> sys.breakpoint
        },
{
    let cmds = system_key_effect(keys, key, sys).0;
    if !keys.key_q && !keys.key_w && !keys.key_e && !keys.key_a && keys.key_d {
        if sys.always_run {
            assert(cmds[1] == SteppingCommand::AlwaysRunNode(key));
        }
        if sys.never_run {
            assert(cmds[cmds.len() - 1] == SteppingCommand::NeverRunNode(key));
        }
        if cmds.contains(SteppingCommand::AlwaysRunNode(key)) {
            let j = choose|j: int| 0 <= j < cmds.len() && cmds[j] == SteppingCommand::AlwaysRunNode(key);
            assert(sys.always_run);
        }
        if cmds.contains(SteppingCommand::NeverRunNode(key)) {
            let j = choose|j: int| 0 <= j < cmds.len() && cmds[j] == SteppingCommand::NeverRunNode(key);
            assert(sys.never_run);
        }
    }
    if !keys.key_q && keys.key_w {
        if sys.breakpoint {
            assert(cmds[1] == SteppingCommand::SetBreakpointNode(key));
        }
        if cmds.contains(SteppingCommand::SetBreakpointNode(key)) {
            let j = choose|j: int| 0 <= j < cmds.len() && cmds[j] == SteppingCommand::SetBreakpointNode(key);
            assert(sys.breakpoint);
        }
    }
}

/// The overlay marks a line by what matters most: the next system is marked
/// as next (with `-@` exactly when it has a breakpoint); otherwise always-run
/// shows as ` + `, then never-run as ` - `, whatever the breakpoint; ` @ `
/// shows only a breakpoint on a system with neither behaviour.
pub proof fn law_mark_priority(is_next: bool, sys: SystemSteppingContext)
    ensures
        (mark_spec(is_next, sys).1 == MarkColor::Next) <==> is_next,
        is_next ==> (mark_spec(is_next, sys).0 == "-@ "@ <==> sys.breakpoint),
        !is_next && sys.always_run ==> mark_spec(is_next, sys) == (" + "@, MarkColor::AlwaysRun),
        !is_next && !sys.always_run && sys.never_run ==> mark_spec(is_next, sys) == (
            " - "@,
            MarkColor::NeverRun,
        ),
        !is_next && mark_spec(is_next, sys).0 == " @ "@ ==> sys.breakpoint && !sys.always_run
            && !sys.never_run,
        !is_next && !sys.always_run && !sys.never_run && sys.breakpoint ==> mark_spec(is_next, sys)
            == (" @ "@, MarkColor::System),
{
    reveal_strlit("-@ ");
    reveal_strlit("-> ");
    reveal_strlit(" + ");
    reveal_strlit(" - ");
    reveal_strlit(" @ ");
    reveal_strlit("   ");
    assert("-@ "@[1] != "-> "@[1]);
    assert(" @ "@[1] != " + "@[1]);
    assert(" @ "@[1] != " - "@[1]);
    assert(" @ "@[1] != "   "@[1]);
}

/// Q makes the next system never run and E makes it always run, whatever it
/// was before (so the later of the two wins); A and D change only its
/// breakpoint, W changes nothing of its state.
pub proof fn law_behaviour_keys(keys: SteppingKeys, key: SystemKey, sys: SystemSteppingContext)
    ensures
        keys.key_q ==> system_key_effect(keys, key, sys).1.never_run && !system_key_effect(
            keys,
            key,
            sys,
        ).1.always_run,
        !keys.key_q && !keys.key_w && keys.key_e ==> system_key_effect(keys, key, sys).1.always_run
            && !system_key_effect(keys, key, sys).1.never_run,
        !keys.key_q && keys.key_w ==> system_key_effect(keys, key, sys).1 == sys,
        !keys.key_q && !keys.key_w && !keys.key_e && (keys.key_a || keys.key_d) ==> {
            let after = system_key_effect(keys, key, sys).1;
            &&& after.always_run == sys.always_run
            &&& after.never_run == sys.never_run
            &&& after.breakpoint == !keys.key_a
        },
        system_key_effect(keys, key, sys).1.text_idx_mark == sys.text_idx_mark,
        system_key_effect(keys, key, sys).1.text_idx_name == sys.text_idx_name,
{
}

} // verus!
