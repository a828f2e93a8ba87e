//! The byte decoder: an escape-sequence state machine of the crate `vte`,
//! and the record of the actions that it reports.
use vstd::prelude::*;

verus! {

/// One action that the byte decoder reports.
#[derive(Debug)]
pub enum VtAction {
    /// A character to be printed.
    Print(char),
    /// A control character.
    Execute(u8),
    /// A control sequence: the first value of each parameter, the
    /// intermediate bytes, and the final character.
    Csi { params: Vec<u16>, interm: Vec<u8>, action: char },
    /// An escape sequence: the intermediate bytes and the final byte.
    Esc { interm: Vec<u8>, byte: u8 },
}

/// An action as a value: what `VtAction` holds, without the buffers.
pub enum Action {
    /// A character to be printed.
    Print(char),
    /// A control character.
    Execute(u8),
    /// A control sequence: the first value of each parameter, the
    /// intermediate bytes, and the final character.
    Csi { params: Seq<u16>, interm: Seq<u8>, action: char },
    /// An escape sequence: the intermediate bytes and the final byte.
    Esc { interm: Seq<u8>, byte: u8 },
}

impl View for VtAction {
    type V = Action;

    open spec fn view(&self) -> Action {
        match *self {
            VtAction::Print(c) => Action::Print(c),
            VtAction::Execute(b) => Action::Execute(b),
            VtAction::Csi { params, interm, action } => Action::Csi {
                params: params@,
                interm: interm@,
                action,
            },
            VtAction::Esc { interm, byte } => Action::Esc { interm: interm@, byte },
        }
    }
}

/// A run of actions as values.
pub open spec fn views(actions: Seq<VtAction>) -> Seq<Action> {
    Seq::new(actions.len(), |i: int| actions[i]@)
}

impl VtAction {
    /// A copy of the action.
    pub fn duplicate(&self) -> (copy: VtAction)
        ensures
            copy@ == self@,
    {
        match self {
            VtAction::Print(c) => VtAction::Print(*c),
            VtAction::Execute(b) => VtAction::Execute(*b),
            VtAction::Csi { params, interm, action } => VtAction::Csi {
                params: copy_params(params),
                interm: copy_bytes(interm.as_slice()),
                action: *action,
            },
            VtAction::Esc { interm, byte } => VtAction::Esc {
                interm: copy_bytes(interm.as_slice()),
                byte: *byte,
            },
        }
    }
}

/// A copy of `src`.
pub fn copy_params(src: &Vec<u16>) -> (out: Vec<u16>)
    ensures
        out@ == src@,
{
    let mut out: Vec<u16> = Vec::new();
    let mut i: usize = 0;
    while i < src.len()
        invariant
            i <= src.len(),
            out@ == src@.subrange(0, i as int),
        decreases src.len() - i,
    {
        out.push(src[i]);
        i += 1;
    }
    out
}

/// The state machine of `vte`. What is inside is not visible here.
#[verifier::external_type_specification]
#[verifier::external_body]
pub struct ExParser<const OSC_RAW_BUF_SIZE: usize>(vte::Parser<OSC_RAW_BUF_SIZE>);

/// The parameter list that `vte` hands to a control sequence's handler.
#[verifier::external_type_specification]
#[verifier::external_body]
pub struct ExParams(vte::Params);

/// The values of each parameter of `params`, in order: the parameter
/// itself, then its subparameters.
pub uninterp spec fn param_groups(params: vte::Params) -> Seq<Seq<u16>>;

/// The actions that the state machine `parser` reports when it takes
/// `byte`, in order. They depend on the state of the machine and on the
/// byte alone.
pub uninterp spec fn parser_reports(parser: vte::Parser, byte: u8) -> Seq<Action>;

/// The state machine after `parser` has taken `byte`.
pub uninterp spec fn parser_after(parser: vte::Parser, byte: u8) -> vte::Parser;

/// The state machine after `parser` has taken `bytes`, one by one.
pub open spec fn parser_after_all(parser: vte::Parser, bytes: Seq<u8>) -> vte::Parser
    decreases bytes.len(),
{
    if bytes.len() == 0 {
        parser
    } else {
        parser_after(parser_after_all(parser, bytes.drop_last()), bytes.last())
    }
}

/// The actions that the state machine `parser` reports while it takes
/// `bytes`, one by one.
pub open spec fn reports_all(parser: vte::Parser, bytes: Seq<u8>) -> Seq<Action>
    decreases bytes.len(),
{
    if bytes.len() == 0 {
        Seq::empty()
    } else {
        reports_all(parser, bytes.drop_last()) + parser_reports(
            parser_after_all(parser, bytes.drop_last()),
            bytes.last(),
        )
    }
}

/// `vte::Parser::new` makes a new state machine. Nothing is claimed of it.
pub assume_specification[ vte::Parser::new ]() -> vte::Parser;

/// The rows of `groups` as sequences.
pub open spec fn groups_view(groups: Seq<Vec<u16>>) -> Seq<Seq<u16>> {
    Seq::new(groups.len(), |i: int| groups[i]@)
}

/// Walks `vte::Params::iter`, which yields for each parameter the slice of
/// its values, and copies each slice: the result holds what the list
/// holds, group by group.
#[verifier::external_body]
fn groups_of(params: &vte::Params) -> (groups: Vec<Vec<u16>>)
    ensures
        groups_view(groups@) == param_groups(*params),
{
    params.iter().map(|x| x.to_vec()).collect()
}

/// The first value of each parameter, 0 for a parameter without values.
pub open spec fn first_values(groups: Seq<Seq<u16>>) -> Seq<u16> {
    Seq::new(groups.len(), |i: int| if groups[i].len() > 0 { groups[i][0] } else { 0 })
}

/// The first value of each parameter, 0 for a parameter without values.
pub fn first_of_each(groups: &Vec<Vec<u16>>) -> (simple: Vec<u16>)
    ensures
        simple@ == first_values(groups_view(groups@)),
{
    let mut simple: Vec<u16> = Vec::new();
    let mut i: usize = 0;
    while i < groups.len()
        invariant
            i <= groups.len(),
            simple@ == first_values(groups_view(groups@)).take(i as int),
        decreases groups.len() - i,
    {
        let group = &groups[i];
        simple.push(if group.len() > 0 { group[0] } else { 0 });
        i += 1;
    }
    simple
}

/// A copy of `src`.
fn copy_bytes(src: &[u8]) -> (out: Vec<u8>)
    ensures
        out@ == src@,
{
    let mut out: Vec<u8> = Vec::new();
    let mut i: usize = 0;
    while i < src.len()
        invariant
            i <= src.len(),
            out@ == src@.subrange(0, i as int),
        decreases src.len() - i,
    {
        out.push(src[i]);
        i += 1;
    }
    out
}

/// The actions that the decoder has reported, oldest first.
pub struct ActionLog {
    pub actions: Vec<VtAction>,
}

impl ActionLog {
    /// A log without actions.
    pub fn new() -> (log: ActionLog)
        ensures
            log.actions@.len() == 0,
    {
        ActionLog { actions: Vec::new() }
    }
}

impl vte::Perform for ActionLog {
    /// Records a character to be printed.
    fn print(&mut self, c: char)
        ensures
            final(self).actions@ == old(self).actions@.push(VtAction::Print(c)),
    {
        self.actions.push(VtAction::Print(c));
    }

    /// Records a control character.
    fn execute(&mut self, byte: u8)
        ensures
            final(self).actions@ == old(self).actions@.push(VtAction::Execute(byte)),
    {
        self.actions.push(VtAction::Execute(byte));
    }

    /// Records a control sequence with the first value of each parameter.
    fn csi_dispatch(
        &mut self,
        params: &vte::Params,
        intermediates: &[u8],
        ignore: bool,
        action: char,
    )
        ensures
            final(self).actions@.drop_last() == old(self).actions@,
            final(self).actions@.last() matches VtAction::Csi { params: p, interm: i, action: a }
                && p@ == first_values(param_groups(*params)) && i@ == intermediates@ && a == action,
    {
        let simple = first_of_each(&groups_of(params));
        let interm = copy_bytes(intermediates);
        self.actions.push(VtAction::Csi { params: simple, interm, action });
    }

    /// Records an escape sequence.
    fn esc_dispatch(&mut self, intermediates: &[u8], ignore: bool, byte: u8)
        ensures
            final(self).actions@.drop_last() == old(self).actions@,
            final(self).actions@.last() matches VtAction::Esc { interm: i, byte: b } && i@
                == intermediates@ && b == byte,
    {
        let interm = copy_bytes(intermediates);
        self.actions.push(VtAction::Esc { interm, byte });
    }
}

/// Calls `vte::Parser::advance` with one byte. The state machine looks
/// the byte up in its tables by its state, reports to `log` the actions
/// that the byte completes (none, one or several), and takes its next
/// state: both depend on its state and the byte alone. The log grows by
/// what is reported.
#[verifier::external_body]
pub(crate) fn parser_advance(parser: &mut vte::Parser, log: &mut ActionLog, byte: u8)
    ensures
        views(final(log).actions@) == views(old(log).actions@) + parser_reports(
            *old(parser),
            byte,
        ),
        *final(parser) == parser_after(*old(parser), byte),
{
    parser.advance(log, byte)
}

} // verus!
