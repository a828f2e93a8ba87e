//! The decisions of the event loop: what each message does to the
//! terminal, what has to be written to the child, and when the damage is
//! flushed to the display server.
use vstd::prelude::*;
use crate::client::WriteHalf;
use crate::decoder::{parser_advance, parser_after, parser_after_all, parser_reports};
use crate::decoder::{reports_all, views, Action, ActionLog, VtAction};
use crate::key::{SkType, Skey, MOD_ALT};
use crate::msg::ServerMsg;
use crate::screen::{valid_size, Screen};
use crate::vte_actor::{lemma_perform_all_concat, lemma_unknown_of_concat};
use crate::vte_actor::{perform_all, unknown_of, VteActor};

verus! {

/// The size of a pseudo-terminal window.
#[derive(Clone, Copy, Debug, PartialEq, Eq, Structural)]
pub struct WinSize {
    pub ws_row: u16,
    pub ws_col: u16,
    pub ws_xpixel: u16,
    pub ws_ypixel: u16,
}

/// The window size of a grid of the size `size`.
pub open spec fn size_conv_spec(size: [i16; 2]) -> WinSize {
    WinSize { ws_row: size[1] as u16, ws_col: size[0] as u16, ws_xpixel: 0, ws_ypixel: 0 }
}

/// The window size of a grid of `size[0]` columns and `size[1]` rows; the
/// size in pixels is left at zero.
pub fn size_conv(size: [i16; 2]) -> (ws: WinSize)
    requires
        size[0] >= 0,
        size[1] >= 0,
    ensures
        ws == size_conv_spec(size),
{
    WinSize { ws_row: size[1] as u16, ws_col: size[0] as u16, ws_xpixel: 0, ws_ypixel: 0 }
}

/// What reaches the event loop.
#[derive(Debug)]
pub enum Msg {
    /// A message of the display server.
    Vtc(ServerMsg),
    /// Bytes that the child process has written.
    CmdRead(Vec<u8>),
    /// The child process is gone.
    Exit,
}

/// What the caller has to do after a message.
#[derive(Debug)]
pub struct Reply {
    /// Whether the event loop ends.
    pub exit: bool,
    /// Bytes to write to the child process.
    pub pty: Vec<u8>,
    /// The new window size to set on the pseudo-terminal, if it changed.
    pub winsize: Option<WinSize>,
    /// Whether the modifier tracker has to record the key of this message.
    pub track: bool,
    /// What the child wrote that the interpreter does not know: to be
    /// logged.
    pub unknown: Vec<VtAction>,
}

impl Reply {
    /// Whether the reply asks for exactly this, and has nothing to log.
    pub open spec fn is(self, exit: bool, pty: Seq<u8>, winsize: Option<WinSize>, track: bool) -> bool {
        self.exit == exit && self.pty@ == pty && self.winsize == winsize && self.track == track
            && self.unknown@.len() == 0
    }

    /// Whether the reply asks for nothing but to log these actions.
    pub open spec fn is_log(self, unknown: Seq<Action>) -> bool {
        !self.exit && self.pty@.len() == 0 && self.winsize is None && !self.track && views(
            self.unknown@,
        ) == unknown
    }

    /// Whether the reply asks for nothing.
    pub open spec fn is_nothing(self) -> bool {
        self.is(false, Seq::empty(), None, false)
    }
}

/// What a typed character sends to the child: its byte where it is below
/// 127, after an escape where Alt is on; nothing otherwise.
pub open spec fn getch_bytes(alt_on: bool, ch: u32) -> Seq<u8> {
    if ch < 127 {
        if alt_on {
            seq![0x1Bu8, ch as u8]
        } else {
            seq![ch as u8]
        }
    } else {
        Seq::empty()
    }
}

/// Whether Alt is still on after a typed character: one below 127 uses it
/// up.
pub open spec fn getch_alt(alt_on: bool, ch: u32) -> bool {
    alt_on && ch >= 127
}

/// What the arrow key `dir` sends to the child: `ESC [` and `D`, `A`, `C`
/// or `B` for left, up, right, down; nothing for another direction.
pub open spec fn direction_bytes(dir: u8) -> Seq<u8> {
    if dir == 0 {
        seq![0x1Bu8, 0x5Bu8, 0x44u8]
    } else if dir == 1 {
        seq![0x1Bu8, 0x5Bu8, 0x41u8]
    } else if dir == 2 {
        seq![0x1Bu8, 0x5Bu8, 0x43u8]
    } else if dir == 3 {
        seq![0x1Bu8, 0x5Bu8, 0x42u8]
    } else {
        Seq::empty()
    }
}

/// What a special key sends to the child: only an arrow key going down
/// sends anything.
pub open spec fn key_bytes(skey: Option<Skey>) -> Seq<u8> {
    match skey {
        Some(Skey { down: true, ty: SkType::Direction(dir) }) => direction_bytes(dir),
        _ => Seq::empty(),
    }
}

/// Whether Alt is on after a special key: the Alt key switches it on
/// going down and off going up.
pub open spec fn key_alt(alt_on: bool, skey: Option<Skey>) -> bool {
    match skey {
        Some(Skey { down, ty: SkType::Modifier(n) }) => if n == MOD_ALT { down } else { alt_on },
        _ => alt_on,
    }
}

/// Whether the modifier tracker has to record a special key: every
/// modifier but Alt, going down or up.
pub open spec fn key_track(skey: Option<Skey>) -> bool {
    match skey {
        Some(Skey { down, ty: SkType::Modifier(n) }) => n != MOD_ALT,
        _ => false,
    }
}

/// The screen after a special key: page up and page down, going down
/// while Shift is held, move the view through the scrollback.
pub open spec fn key_screen(s: Screen, skey: Option<Skey>, shift: bool) -> Screen {
    match skey {
        Some(Skey { down: true, ty: SkType::Direction(dir) }) => if (dir == 6 || dir == 7)
            && shift {
            s.scroll_history_page(dir == 7)
        } else {
            s
        },
        _ => s,
    }
}

/// The terminal: the interpreter with its screen, the byte decoder, and
/// what the event loop remembers between messages.
pub struct VteMaster {
    /// The window size that the pseudo-terminal was last given.
    pub ws: WinSize,
    pub va: VteActor,
    pub parser: vte::Parser,
    /// Whether Alt went down and no character has used it up yet.
    pub alt_on: bool,
}

impl VteMaster {
    /// Whether the terminal is in a state that its operations keep.
    pub open spec fn wf(&self) -> bool {
        self.va.wh.wf()
    }

    /// Starts the terminal from the first message of the display server,
    /// which has to give the size of the window. Returns the terminal and
    /// the commands that draw the empty screen before it takes that size.
    pub fn new(event: ServerMsg) -> (r: Option<(VteMaster, Vec<u8>)>)
        ensures
            match event {
                ServerMsg::Resized(tsize) if valid_size(tsize[0] as int, tsize[1] as int) => {
                    &&& r matches Some((master, first))
                    &&& master.wf()
                    &&& master.va.wh@ == Screen::initial().reset().resize(
                        tsize[0] as int,
                        tsize[1] as int,
                    )
                    &&& master.ws == size_conv_spec(tsize)
                    &&& !master.alt_on
                    &&& first@ == Screen::initial().clear().loc(0, 0).loc(
                        1,
                        0,
                    ).damage_all().damage_bytes()
                },
                _ => r is None,
            },
    {
        match event {
            ServerMsg::Resized(tsize) => {
                if tsize[0] < 1 || tsize[1] < 1 {
                    return None;
                }
                let mut wh = WriteHalf::new();
                let first = wh.reset();
                let mut master = VteMaster {
                    ws: size_conv([0, 0]),
                    va: VteActor::new(wh),
                    parser: vte::Parser::new(),
                    alt_on: false,
                };
                master.resize(tsize);
                Some((master, first))
            },
            _ => None,
        }
    }

    /// Gives the screen a new size, and remembers the window size that
    /// the pseudo-terminal has to be given.
    pub fn resize(&mut self, tsize: [i16; 2])
        requires
            old(self).wf(),
            valid_size(tsize[0] as int, tsize[1] as int),
        ensures
            final(self).va.wh@ == old(self).va.wh@.resize(tsize[0] as int, tsize[1] as int),
            final(self).ws == size_conv_spec(tsize),
            final(self).va.color_table == old(self).va.color_table,
            final(self).parser == old(self).parser,
            final(self).alt_on == old(self).alt_on,
            final(self).wf(),
    {
        self.va.wh.resize(tsize);
        self.ws = size_conv(tsize);
    }

    /// Feeds one byte of the child's output to the byte decoder and
    /// carries out on the screen what the decoder reports. Returns what
    /// was reported that the interpreter does not know.
    pub fn advance(&mut self, byte: u8) -> (unknown: Vec<VtAction>)
        requires
            old(self).wf(),
        ensures
            final(self).wf(),
            final(self).va.wh@ == perform_all(
                old(self).va.wh@,
                old(self).va.color_table@,
                parser_reports(old(self).parser, byte),
            ),
            final(self).parser == parser_after(old(self).parser, byte),
            views(unknown@) == unknown_of(parser_reports(old(self).parser, byte)),
            final(self).va.color_table == old(self).va.color_table,
            final(self).ws == old(self).ws,
            final(self).alt_on == old(self).alt_on,
    {
        let mut log = ActionLog::new();
        parser_advance(&mut self.parser, &mut log, byte);
        self.va.perform_all(&log.actions)
    }

    /// A character typed on the display server: what goes to the child.
    pub fn on_getch(&mut self, ch: u32) -> (pty: Vec<u8>)
        ensures
            pty@ == getch_bytes(old(self).alt_on, ch),
            final(self).alt_on == getch_alt(old(self).alt_on, ch),
            final(self).va == old(self).va,
            final(self).parser == old(self).parser,
            final(self).ws == old(self).ws,
    {
        let mut pty: Vec<u8> = Vec::new();
        if ch < 127 {
            if self.alt_on {
                pty.push(0x1B);
                self.alt_on = false;
            }
            pty.push(ch as u8);
        }
        pty
    }

    /// A special key of the display server: `skey` is what its two bytes
    /// decode to, `None` where they decode to nothing, and `shift` tells
    /// whether Shift is held. Returns what goes to the child.
    pub fn on_skey(&mut self, skey: Option<Skey>, shift: bool) -> (pty: Vec<u8>)
        requires
            old(self).wf(),
        ensures
            pty@ == key_bytes(skey),
            final(self).alt_on == key_alt(old(self).alt_on, skey),
            final(self).va.wh@ == key_screen(old(self).va.wh@, skey, shift),
            final(self).va.color_table == old(self).va.color_table,
            final(self).parser == old(self).parser,
            final(self).ws == old(self).ws,
            final(self).wf(),
    {
        let mut pty: Vec<u8> = Vec::new();
        let key = match skey {
            Some(key) => key,
            None => {
                return pty;
            },
        };
        if !key.down {
            match key.ty {
                SkType::Modifier(n) => {
                    if n == MOD_ALT {
                        self.alt_on = false;
                    }
                },
                _ => {},
            }
            return pty;
        }
        match key.ty {
            SkType::Direction(x) => {
                if x <= 3 {
                    pty.push(0x1B);
                    pty.push(0x5B);
                    pty.push(
                        if x == 0 {
                            0x44
                        } else if x == 1 {
                            0x41
                        } else if x == 2 {
                            0x43
                        } else {
                            0x42
                        },
                    );
                } else if x == 6 || x == 7 {
                    if shift {
                        self.va.wh.scroll_history_page(x == 7);
                    }
                }
            },
            SkType::Modifier(n) => {
                if n == MOD_ALT {
                    self.alt_on = true;
                }
            },
            _ => {},
        }
        pty
    }

    /// Takes one message of the event loop and tells what the caller has
    /// to do. With a special key, `skey` is what its two bytes decode to
    /// and `shift` tells whether Shift is held; with every other message
    /// both are left aside.
    pub fn proc_msg(&mut self, msg: Msg, skey: Option<Skey>, shift: bool) -> (r: Reply)
        requires
            old(self).wf(),
        ensures
            final(self).wf(),
            final(self).va.color_table == old(self).va.color_table,
            match msg {
                Msg::Exit => {
                    &&& r.is(true, Seq::empty(), None, false)
                    &&& *final(self) == *old(self)
                },
                Msg::CmdRead(bytes) => {
                    &&& r.is_log(unknown_of(reports_all(old(self).parser, bytes@)))
                    &&& final(self).va.wh@ == perform_all(
                        old(self).va.wh@,
                        old(self).va.color_table@,
                        reports_all(old(self).parser, bytes@),
                    )
                    &&& final(self).parser == parser_after_all(old(self).parser, bytes@)
                    &&& final(self).ws == old(self).ws
                    &&& final(self).alt_on == old(self).alt_on
                },
                Msg::Vtc(ServerMsg::Getch(ch)) => {
                    &&& r.is(false, getch_bytes(old(self).alt_on, ch), None, false)
                    &&& final(self).alt_on == getch_alt(old(self).alt_on, ch)
                    &&& final(self).va == old(self).va
                    &&& final(self).ws == old(self).ws
                    &&& final(self).parser == old(self).parser
                },
                Msg::Vtc(ServerMsg::Resized(size)) => {
                    &&& final(self).alt_on == old(self).alt_on
                    &&& final(self).parser == old(self).parser
                    &&& if valid_size(size[0] as int, size[1] as int) {
                        &&& r.is(false, Seq::empty(), Some(size_conv_spec(size)), false)
                        &&& final(self).ws == size_conv_spec(size)
                        &&& final(self).va.wh@ == old(self).va.wh@.resize(
                            size[0] as int,
                            size[1] as int,
                        )
                    } else {
                        &&& r.is_nothing()
                        &&& final(self).ws == old(self).ws
                        &&& final(self).va == old(self).va
                    }
                },
                Msg::Vtc(ServerMsg::Skey(code)) => {
                    &&& r.is(false, key_bytes(skey), None, key_track(skey))
                    &&& final(self).alt_on == key_alt(old(self).alt_on, skey)
                    &&& final(self).va.wh@ == key_screen(old(self).va.wh@, skey, shift)
                    &&& final(self).ws == old(self).ws
                    &&& final(self).parser == old(self).parser
                },
            },
    {
        let mut reply = Reply {
            exit: false,
            pty: Vec::new(),
            winsize: None,
            track: false,
            unknown: Vec::new(),
        };
        match msg {
            Msg::CmdRead(bytes) => {
                let mut i: usize = 0;
                while i < bytes.len()
                    invariant
                        i <= bytes.len(),
                        self.wf(),
                        self.va.wh@ == perform_all(
                            old(self).va.wh@,
                            old(self).va.color_table@,
                            reports_all(old(self).parser, bytes@.take(i as int)),
                        ),
                        self.parser == parser_after_all(old(self).parser, bytes@.take(i as int)),
                        views(reply.unknown@) == unknown_of(
                            reports_all(old(self).parser, bytes@.take(i as int)),
                        ),
                        !reply.exit,
                        reply.pty@.len() == 0,
                        reply.winsize is None,
                        !reply.track,
                        self.va.color_table == old(self).va.color_table,
                        self.ws == old(self).ws,
                        self.alt_on == old(self).alt_on,
                    decreases bytes.len() - i,
                {
                    let ghost sofar = reports_all(old(self).parser, bytes@.take(i as int));
                    let ghost now = parser_reports(self.parser, bytes@[i as int]);
                    let mut unknown = self.advance(bytes[i]);
                    reply.unknown.append(&mut unknown);
                    proof {
                        assert(bytes@.take(i + 1).drop_last() =~= bytes@.take(i as int));
                        lemma_perform_all_concat(
                            old(self).va.wh@,
                            old(self).va.color_table@,
                            sofar,
                            now,
                        );
                        lemma_unknown_of_concat(sofar, now);
                    }
                    i += 1;
                }
                assert(bytes@.take(i as int) =~= bytes@);
            },
            Msg::Vtc(vtc) => {
                match vtc {
                    ServerMsg::Getch(ch) => {
                        reply.pty = self.on_getch(ch);
                    },
                    ServerMsg::Resized(new_size) => {
                        if new_size[0] >= 1 && new_size[1] >= 1 {
                            self.resize(new_size);
                            reply.winsize = Some(self.ws);
                        }
                    },
                    ServerMsg::Skey(_) => {
                        reply.pty = self.on_skey(skey, shift);
                        reply.track = match skey {
                            Some(key) => match key.ty {
                                SkType::Modifier(n) => n != MOD_ALT,
                                _ => false,
                            },
                            None => false,
                        };
                    },
                }
            },
            Msg::Exit => {
                reply.exit = true;
            },
        }
        reply
    }
}

/// Milliseconds between two flushes, at the least.
pub const FTIME: u64 = 10;

/// Number of messages taken in a row after which a flush is considered.
pub const FORCE_AFTER: u32 = 100;

/// How the event loop waits for its next message.
#[derive(Clone, Copy, Debug, PartialEq, Eq, Structural)]
pub enum RecvType {
    /// Wait until a message comes.
    Block,
    /// Take a message if one is there, without waiting.
    Nonblock,
    /// Wait for a message, this many milliseconds at most.
    Timeout(u64),
}

/// The pacing of flushes: at most one each `FTIME` milliseconds while
/// messages keep coming, one soon after they stop, none while idle.
#[derive(Clone, Copy, Debug, PartialEq, Eq, Structural)]
pub struct FrameLock {
    /// How to wait for the next message.
    pub tryr: RecvType,
    /// Messages taken since the counter was last reset.
    pub send_counter: u32,
}

impl FrameLock {
    /// The pacing at the start: no waiting, nothing counted.
    pub fn new() -> (lock: FrameLock)
        ensures
            lock == (FrameLock { tryr: RecvType::Nonblock, send_counter: 0 }),
    {
        FrameLock { tryr: RecvType::Nonblock, send_counter: 0 }
    }

    /// A message was taken and handled, `dur` milliseconds after the last
    /// flush. Tells whether to flush now. The next message is taken
    /// without waiting.
    pub fn on_message(&mut self, dur: u64) -> (flush: bool)
        ensures
            final(self).tryr == RecvType::Nonblock,
            flush == (old(self).send_counter >= FORCE_AFTER && dur > FTIME),
            final(self).send_counter == if old(self).send_counter >= FORCE_AFTER {
                0
            } else {
                old(self).send_counter + 1
            },
    {
        let mut flush = false;
        if self.send_counter >= FORCE_AFTER {
            self.send_counter = 0;
            if dur > FTIME {
                flush = true;
            }
        } else {
            self.send_counter += 1;
        }
        self.tryr = RecvType::Nonblock;
        flush
    }

    /// No message was there, or none came in time, `dur` milliseconds
    /// after the last flush. Tells whether to flush now: after a flush the
    /// loop waits for a message without limit, before it only for the rest
    /// of the interval.
    pub fn on_empty(&mut self, dur: u64) -> (flush: bool)
        ensures
            flush == (dur > FTIME),
            final(self).send_counter == old(self).send_counter,
            final(self).tryr == if dur > FTIME {
                RecvType::Block
            } else {
                RecvType::Timeout((FTIME - dur + 1) as u64)
            },
    {
        if dur > FTIME {
            self.tryr = RecvType::Block;
            true
        } else {
            self.tryr = RecvType::Timeout(FTIME - dur + 1);
            false
        }
    }
}

/// The escape sequence that ends a highlight.
pub open spec fn highlight_off() -> Seq<u8> {
    seq![0x1Bu8, 0x5Bu8, 0x30u8, 0x6Du8]
}

/// The escape sequence that starts a highlight: background 22 of the
/// palette in state 1, background 18 otherwise.
pub open spec fn highlight_on(state: i8) -> Seq<u8> {
    if state == 1 {
        seq![0x1Bu8, 0x5Bu8, 0x34u8, 0x38u8, 0x3Bu8, 0x35u8, 0x3Bu8, 0x32u8, 0x32u8, 0x6Du8]
    } else {
        seq![0x1Bu8, 0x5Bu8, 0x34u8, 0x38u8, 0x3Bu8, 0x35u8, 0x3Bu8, 0x31u8, 0x38u8, 0x6Du8]
    }
}

/// The decimal digits of `n`, without leading zeros.
pub open spec fn decimal(n: u8) -> Seq<u8> {
    if n >= 100 {
        seq![(0x30 + n / 100) as u8, (0x30 + n / 10 % 10) as u8, (0x30 + n % 10) as u8]
    } else if n >= 10 {
        seq![(0x30 + n / 10) as u8, (0x30 + n % 10) as u8]
    } else {
        seq![(0x30 + n) as u8]
    }
}

/// How a byte of the child's output is shown in the trace, in UTF-8: an
/// ASCII control character as a backslash and its number, any other byte
/// as the character with that code point.
pub open spec fn shown_byte(byte: u8) -> Seq<u8> {
    if byte <= 0x1F || byte == 0x7F {
        seq![0x5Cu8] + decimal(byte)
    } else if byte < 0x80 {
        seq![byte]
    } else {
        seq![(0xC0 + byte / 64) as u8, (0x80 + byte % 64) as u8]
    }
}

/// The text of one byte in the trace.
pub open spec fn trace_text(state: i8, byte: u8) -> Seq<u8> {
    highlight_on(state) + shown_byte(byte) + highlight_off()
}

/// The slow-motion trace of the child's output: each byte is shown on a
/// background that alternates, and followed by a pause.
#[derive(Clone, Copy, Debug, PartialEq, Eq, Structural)]
pub struct Debugger {
    /// Which of the two backgrounds the next byte gets: 0 or 1.
    pub state: i8,
    /// The pause after each byte, in milliseconds.
    pub sleep: u64,
}

impl Debugger {
    /// A trace that pauses `sleep` milliseconds after each byte.
    pub fn new(sleep: u64) -> (d: Debugger)
        ensures
            d == (Debugger { state: 0, sleep }),
    {
        Debugger { state: 0, sleep }
    }

    /// The text that shows `byte` in the trace; the background changes
    /// for the next byte.
    pub fn p(&mut self, byte: u8) -> (text: Vec<u8>)
        requires
            0 <= old(self).state <= 1,
        ensures
            text@ == trace_text(old(self).state, byte),
            final(self).state == 1 - old(self).state,
            final(self).sleep == old(self).sleep,
    {
        let mut text: Vec<u8> = Vec::new();
        text.push(0x1B);
        text.push(0x5B);
        text.push(0x34);
        text.push(0x38);
        text.push(0x3B);
        text.push(0x35);
        text.push(0x3B);
        if self.state == 1 {
            text.push(0x32);
            text.push(0x32);
        } else {
            text.push(0x31);
            text.push(0x38);
        }
        text.push(0x6D);
        if byte <= 0x1F || byte == 0x7F {
            text.push(0x5C);
            if byte >= 100 {
                text.push(0x30 + byte / 100);
                text.push(0x30 + byte / 10 % 10);
                text.push(0x30 + byte % 10);
            } else if byte >= 10 {
                text.push(0x30 + byte / 10);
                text.push(0x30 + byte % 10);
            } else {
                text.push(0x30 + byte);
            }
        } else if byte < 0x80 {
            text.push(byte);
        } else {
            text.push(0xC0 + byte / 64);
            text.push(0x80 + byte % 64);
        }
        text.push(0x1B);
        text.push(0x5B);
        text.push(0x30);
        text.push(0x6D);
        self.state = 1 - self.state;
        text
    }
}

} // verus!
