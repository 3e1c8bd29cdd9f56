use vstd::prelude::*;
use vstd::string::StringSliceAdditionalSpecFns;
use crate::framebuffer::{ConsoleModel, FramebufferWriter};

verus! {

/// Most bytes an input line can hold.
pub const LINE_CAPACITY: usize = 256;

/// The input line being typed.
pub struct LineBuffer {
    buf: Vec<u8>,
}

impl View for LineBuffer {
    type V = Seq<u8>;

    closed spec fn view(&self) -> Seq<u8> {
        self.buf@
    }
}

impl LineBuffer {
    /// An empty line.
    pub fn new() -> (r: LineBuffer)
        ensures
            r@ == Seq::<u8>::empty(),
    {
        LineBuffer { buf: Vec::new() }
    }

    /// Appends `byte` if the line has room; returns whether it did.
    pub fn push(&mut self, byte: u8) -> (r: bool)
        ensures
            r == (old(self)@.len() < LINE_CAPACITY),
            r ==> final(self)@ == old(self)@.push(byte),
            !r ==> final(self)@ == old(self)@,
    {
        if self.buf.len() < LINE_CAPACITY {
            self.buf.push(byte);
            true
        } else {
            false
        }
    }

    /// Removes the last byte if there is one; returns whether it did.
    pub fn pop(&mut self) -> (r: bool)
        ensures
            r == (old(self)@.len() > 0),
            r ==> final(self)@ == old(self)@.drop_last(),
            !r ==> final(self)@ == old(self)@,
    {
        if self.buf.len() > 0 {
            self.buf.pop();
            true
        } else {
            false
        }
    }

    /// Empties the line.
    pub fn clear(&mut self)
        ensures
            final(self)@ == Seq::<u8>::empty(),
    {
        self.buf.clear();
    }

    /// The bytes typed so far.
    pub fn as_bytes(&self) -> (r: &[u8])
        ensures
            r@ == self@,
    {
        self.buf.as_slice()
    }
}

/// A parsed command line.
#[derive(Debug, PartialEq, Eq)]
pub enum Command {
    /// Nothing but whitespace.
    Empty,
    Help,
    Clear,
    /// `echo` with the text after it.
    Echo(Vec<u8>),
    Info,
    Reboot,
    /// A first word that names no command.
    Unknown(Vec<u8>),
}

/// A parsed command line, with its text as byte sequences.
pub enum CommandView {
    Empty,
    Help,
    Clear,
    Echo(Seq<u8>),
    Info,
    Reboot,
    Unknown(Seq<u8>),
}

impl View for Command {
    type V = CommandView;

    open spec fn view(&self) -> CommandView {
        match self {
            Command::Empty => CommandView::Empty,
            Command::Help => CommandView::Help,
            Command::Clear => CommandView::Clear,
            Command::Echo(a) => CommandView::Echo(a@),
            Command::Info => CommandView::Info,
            Command::Reboot => CommandView::Reboot,
            Command::Unknown(w) => CommandView::Unknown(w@),
        }
    }
}

/// ASCII whitespace: space, tab, line feed, vertical tab, form feed, return.
pub open spec fn is_space(b: u8) -> bool {
    b == 32 || (9 <= b <= 13)
}

/// `s` without its leading whitespace.
pub open spec fn trim_start(s: Seq<u8>) -> Seq<u8>
    decreases s.len(),
{
    if s.len() > 0 && is_space(s[0]) {
        trim_start(s.drop_first())
    } else {
        s
    }
}

/// Index of the first space in `s`, or `s.len()` if there is none.
pub open spec fn first_space(s: Seq<u8>) -> int
    decreases s.len(),
{
    if s.len() == 0 {
        0
    } else if s[0] == 32 {
        0
    } else {
        1 + first_space(s.drop_first())
    }
}

/// The first word of the trimmed line.
pub open spec fn command_word(line: Seq<u8>) -> Seq<u8> {
    let t = trim_start(line);
    t.take(first_space(t))
}

/// What follows the first word and the space after it, trimmed at the start.
pub open spec fn command_args(line: Seq<u8>) -> Seq<u8> {
    let t = trim_start(line);
    let p = first_space(t);
    if p < t.len() {
        trim_start(t.skip(p + 1))
    } else {
        Seq::empty()
    }
}

pub open spec fn command_of(line: Seq<u8>) -> CommandView {
    let w = command_word(line);
    if trim_start(line).len() == 0 {
        CommandView::Empty
    } else if w == "help".spec_bytes() {
        CommandView::Help
    } else if w == "clear".spec_bytes() {
        CommandView::Clear
    } else if w == "echo".spec_bytes() {
        CommandView::Echo(command_args(line))
    } else if w == "info".spec_bytes() {
        CommandView::Info
    } else if w == "reboot".spec_bytes() {
        CommandView::Reboot
    } else {
        CommandView::Unknown(w)
    }
}

/// The help listing.
pub open spec fn help_text() -> Seq<u8> {
    "Available commands:\n  help    - Show this help message\n  clear   - Clear the screen\n  echo    - Print text to the screen\n  info    - Show system information\n  reboot  - Reboot the system\n".spec_bytes()
}

/// The text a command prints itself; `info` and `reboot` reach outside the
/// shell and print nothing here.
pub open spec fn output_of(c: CommandView) -> Seq<u8> {
    match c {
        CommandView::Help => help_text(),
        CommandView::Echo(a) => a + "\n".spec_bytes(),
        CommandView::Unknown(w) => "Unknown command: ".spec_bytes() + w + "\n".spec_bytes(),
        _ => Seq::empty(),
    }
}

/// What a typed key asks of the shell loop.
#[derive(Debug, Clone, Copy, PartialEq, Eq, Structural)]
pub enum KeyAction {
    /// Enter: run the line, then start a new one.
    Submit,
    /// A byte was removed from the line: erase it on screen.
    Erase,
    /// A printable byte was added to the line: show it.
    Echo(u8),
    /// Nothing to do.
    Ignore,
}

/// Whether `fb` holds a console in working order, or none.
pub open spec fn console_ok(fb: Option<FramebufferWriter>) -> bool {
    fb matches Some(w) ==> w@.wf()
}

/// `fb` after writing `s`, where there is a console.
pub open spec fn console_after(before: Option<FramebufferWriter>, after: Option<FramebufferWriter>, s: Seq<u8>) -> bool {
    match before {
        Some(w) => after matches Some(w2) && w2@ == w@.after_bytes(s) && w2@.wf(),
        None => after is None,
    }
}

/// Writing `a` then `b` leaves the console as writing `a + b` does.
pub proof fn lemma_after_bytes_concat(m: ConsoleModel, a: Seq<u8>, b: Seq<u8>)
    ensures
        m.after_bytes(a).after_bytes(b) == m.after_bytes(a + b),
    decreases b.len(),
{
    if b.len() == 0 {
        assert(a + b =~= a);
    } else {
        lemma_after_bytes_concat(m, a, b.drop_last());
        assert((a + b).drop_last() =~= a + b.drop_last());
    }
}

/// Writes `bytes` to the console, if there is one, and returns the same bytes
/// for the serial line.
pub fn print_bytes(fb: &mut Option<FramebufferWriter>, bytes: &[u8]) -> (r: Vec<u8>)
    requires
        console_ok(*old(fb)),
    ensures
        console_after(*old(fb), *final(fb), bytes@),
        r@ == bytes@,
{
    let mut out: Vec<u8> = Vec::new();
    let mut i: usize = 0;
    while i < bytes.len()
        invariant
            i <= bytes@.len(),
            out@ == bytes@.take(i as int),
            console_after(*old(fb), *fb, bytes@.take(i as int)),
        decreases bytes@.len() - i,
    {
        assert(bytes@.take(i + 1).drop_last() =~= bytes@.take(i as int));
        match fb {
            Some(w) => w.write_byte(bytes[i]),
            None => {},
        }
        out.push(bytes[i]);
        i += 1;
        assert(out@ =~= bytes@.take(i as int));
    }
    assert(bytes@.take(bytes@.len() as int) =~= bytes@);
    out
}

/// Writes `s` to the console, if there is one, and returns its bytes for the
/// serial line.
pub fn print_str(fb: &mut Option<FramebufferWriter>, s: &str) -> (r: Vec<u8>)
    requires
        console_ok(*old(fb)),
    ensures
        console_after(*old(fb), *final(fb), s.spec_bytes()),
        r@ == s.spec_bytes(),
{
    print_bytes(fb, s.as_bytes())
}

/// Prints the prompt.
pub fn print_prompt(fb: &mut Option<FramebufferWriter>) -> (r: Vec<u8>)
    requires
        console_ok(*old(fb)),
    ensures
        console_after(*old(fb), *final(fb), "shadow> ".spec_bytes()),
        r@ == "shadow> ".spec_bytes(),
{
    print_str(fb, "shadow> ")
}

/// Prints the help listing.
pub fn cmd_help(fb: &mut Option<FramebufferWriter>) -> (r: Vec<u8>)
    requires
        console_ok(*old(fb)),
    ensures
        console_after(*old(fb), *final(fb), help_text()),
        r@ == help_text(),
{
    print_str(
        fb,
        "Available commands:\n  help    - Show this help message\n  clear   - Clear the screen\n  echo    - Print text to the screen\n  info    - Show system information\n  reboot  - Reboot the system\n",
    )
}

/// Appends the bytes of `more` to `out`.
fn append(out: &mut Vec<u8>, more: Vec<u8>)
    ensures
        final(out)@ == old(out)@ + more@,
{
    let mut more = more;
    out.append(&mut more);
}

/// Prints `args` and a line feed.
pub fn cmd_echo(fb: &mut Option<FramebufferWriter>, args: &[u8]) -> (r: Vec<u8>)
    requires
        console_ok(*old(fb)),
    ensures
        console_after(*old(fb), *final(fb), args@ + "\n".spec_bytes()),
        r@ == args@ + "\n".spec_bytes(),
{
    let ghost f0 = *fb;
    let mut out = print_bytes(fb, args);
    let tail = print_str(fb, "\n");
    proof {
        if let Some(w) = f0 {
            lemma_after_bytes_concat(w@, args@, "\n".spec_bytes());
        }
    }
    append(&mut out, tail);
    out
}

/// Parses and runs `line`: help, echo and unknown commands print their text
/// (returned too for the serial line), `clear` clears the console; the parsed
/// command is returned so that the caller can carry out `info` and `reboot`.
pub fn execute(fb: &mut Option<FramebufferWriter>, line: &[u8]) -> (r: (Command, Vec<u8>))
    requires
        console_ok(*old(fb)),
    ensures
        r.0@ == command_of(line@),
        r.1@ == output_of(command_of(line@)),
        command_of(line@) == CommandView::Clear ==> match *old(fb) {
            Some(w) => *final(fb) matches Some(w2) && w2@ == w@.with_buffer(
                crate::framebuffer::zeros(w@.buffer.len()),
            ).with_cursor(0, 0) && w2@.wf(),
            None => *final(fb) is None,
        },
        command_of(line@) != CommandView::Clear ==> console_after(
            *old(fb),
            *final(fb),
            output_of(command_of(line@)),
        ),
{
    let cmd = parse_command(line);
    let out = match &cmd {
        Command::Help => cmd_help(fb),
        Command::Clear => {
            match fb {
                Some(w) => w.clear_screen(),
                None => {},
            }
            Vec::new()
        },
        Command::Echo(args) => cmd_echo(fb, args.as_slice()),
        Command::Unknown(word) => {
            let ghost f0 = *fb;
            let mut out = print_str(fb, "Unknown command: ");
            let mid = print_bytes(fb, word.as_slice());
            let tail = print_str(fb, "\n");
            proof {
                if let Some(w) = f0 {
                    lemma_after_bytes_concat(w@, "Unknown command: ".spec_bytes(), word@);
                    lemma_after_bytes_concat(w@, "Unknown command: ".spec_bytes() + word@, "\n".spec_bytes());
                }
            }
            append(&mut out, mid);
            append(&mut out, tail);
            out
        },
        _ => {
            let ghost f0 = *fb;
            proof {
                if let Some(w) = f0 {
                    assert(w@.after_bytes(Seq::empty()) == w@);
                }
            }
            Vec::new()
        },
    };
    (cmd, out)
}

/// Decimal digits of `n`, most significant first.
pub open spec fn decimal(n: nat) -> Seq<u8>
    decreases n,
{
    if n < 10 {
        seq![(48 + n) as u8]
    } else {
        decimal(n / 10).push((48 + n % 10) as u8)
    }
}

/// The `info` report: a version line, the screen and text-grid sizes when
/// there is a console, and the RAM disk size when there is one.
pub open spec fn info_text(screen: Option<(nat, nat, nat, nat)>, disk_blocks: Option<nat>) -> Seq<u8> {
    "ShadowOS v0.1.0\n".spec_bytes() + match screen {
        Some((w, h, c, r)) => "Framebuffer: ".spec_bytes() + decimal(w) + "x".spec_bytes() + decimal(h)
            + "\nText grid:   ".spec_bytes() + decimal(c) + "x".spec_bytes() + decimal(r)
            + "\n".spec_bytes(),
        None => Seq::empty(),
    } + match disk_blocks {
        Some(b) => "RAM disk:    ".spec_bytes() + decimal(b) + " blocks (".spec_bytes() + decimal(
            b * 512 / 1024,
        ) + " KB)\n".spec_bytes(),
        None => Seq::empty(),
    }
}

/// Appends the decimal digits of `n` to `out`.
fn push_decimal(out: &mut Vec<u8>, n: u64)
    ensures
        final(out)@ == old(out)@ + decimal(n as nat),
    decreases n,
{
    if n >= 10 {
        push_decimal(out, n / 10);
    }
    out.push((48 + n % 10) as u8);
    assert(final(out)@ =~= old(out)@ + decimal(n as nat));
}

/// Appends the bytes of `s` to `out`.
fn push_str(out: &mut Vec<u8>, s: &str)
    ensures
        final(out)@ == old(out)@ + s.spec_bytes(),
{
    let bytes = s.as_bytes();
    let mut i: usize = 0;
    while i < bytes.len()
        invariant
            i <= bytes@.len(),
            bytes@ == s.spec_bytes(),
            out@ == old(out)@ + bytes@.take(i as int),
        decreases bytes@.len() - i,
    {
        out.push(bytes[i]);
        i += 1;
        assert(out@ =~= old(out)@ + bytes@.take(i as int));
    }
    assert(bytes@.take(bytes@.len() as int) =~= bytes@);
}

/// Prints the `info` report for the console (if any) and a RAM disk of
/// `disk_blocks` blocks (if any).
pub fn cmd_info(fb: &mut Option<FramebufferWriter>, disk_blocks: Option<u64>) -> (r: Vec<u8>)
    requires
        console_ok(*old(fb)),
    ensures
        r@ == info_text(
            match *old(fb) {
                Some(w) => Some((w@.width, w@.height, w@.max_cols, w@.max_rows)),
                None => None,
            },
            match disk_blocks {
                Some(b) => Some(b as nat),
                None => None,
            },
        ),
        console_after(*old(fb), *final(fb), r@),
{
    let mut text: Vec<u8> = Vec::new();
    push_str(&mut text, "ShadowOS v0.1.0\n");
    match fb {
        Some(w) => {
            push_str(&mut text, "Framebuffer: ");
            push_decimal(&mut text, w.width() as u64);
            push_str(&mut text, "x");
            push_decimal(&mut text, w.height() as u64);
            push_str(&mut text, "\nText grid:   ");
            push_decimal(&mut text, w.max_cols() as u64);
            push_str(&mut text, "x");
            push_decimal(&mut text, w.max_rows() as u64);
            push_str(&mut text, "\n");
        },
        None => {},
    }
    match disk_blocks {
        Some(b) => {
            push_str(&mut text, "RAM disk:    ");
            push_decimal(&mut text, b);
            push_str(&mut text, " blocks (");
            push_decimal(&mut text, b / 2);
            push_str(&mut text, " KB)\n");
        },
        None => {},
    }
    assert(text@ =~= info_text(
        match *old(fb) {
            Some(w) => Some((w@.width, w@.height, w@.max_cols, w@.max_rows)),
            None => None,
        },
        match disk_blocks {
            Some(b) => Some(b as nat),
            None => None,
        },
    ));
    print_bytes(fb, text.as_slice())
}

/// Erases the last typed character: a backspace on the console, if there is
/// one, and the bytes that do the same on a serial terminal (back, space,
/// back).
pub fn do_backspace(fb: &mut Option<FramebufferWriter>) -> (r: Vec<u8>)
    requires
        console_ok(*old(fb)),
    ensures
        match *old(fb) {
            Some(w) => *final(fb) matches Some(w2) && w2@ == w@.after_backspace() && w2@.wf(),
            None => *final(fb) is None,
        },
        r@ == seq![8u8, 32u8, 8u8],
{
    match fb {
        Some(w) => w.backspace(),
        None => {},
    }
    let r = vec![8u8, 32u8, 8u8];
    assert(r@ =~= seq![8u8, 32u8, 8u8]);
    r
}

/// Decides what a key typed at the shell does to the input line: Enter
/// submits it, backspace removes its last byte (if any), printable ASCII is
/// added while there is room, and everything else, tab included, is ignored.
pub fn handle_key(line: &mut LineBuffer, byte: u8) -> (r: KeyAction)
    ensures
        byte == 10 ==> r == KeyAction::Submit && final(line)@ == old(line)@,
        byte == 8 && old(line)@.len() > 0 ==> r == KeyAction::Erase && final(line)@ == old(line)@.drop_last(),
        byte == 8 && old(line)@.len() == 0 ==> r == KeyAction::Ignore && final(line)@ == old(line)@,
        0x20 <= byte <= 0x7E && old(line)@.len() < LINE_CAPACITY ==> r == KeyAction::Echo(byte)
            && final(line)@ == old(line)@.push(byte),
        0x20 <= byte <= 0x7E && old(line)@.len() >= LINE_CAPACITY ==> r == KeyAction::Ignore
            && final(line)@ == old(line)@,
        byte != 10 && byte != 8 && !(0x20 <= byte <= 0x7E) ==> r == KeyAction::Ignore && final(line)@
            == old(line)@,
{
    if byte == 10 {
        KeyAction::Submit
    } else if byte == 8 {
        if line.pop() {
            KeyAction::Erase
        } else {
            KeyAction::Ignore
        }
    } else if 0x20 <= byte && byte <= 0x7E {
        if line.push(byte) {
            KeyAction::Echo(byte)
        } else {
            KeyAction::Ignore
        }
    } else {
        KeyAction::Ignore
    }
}

fn bytes_eq(a: &[u8], b: &[u8]) -> (r: bool)
    ensures
        r == (a@ == b@),
{
    if a.len() != b.len() {
        return false;
    }
    let mut i: usize = 0;
    while i < a.len()
        invariant
            i <= a@.len(),
            a@.len() == b@.len(),
            forall|j: int| 0 <= j < i ==> a@[j] == b@[j],
        decreases a@.len() - i,
    {
        if a[i] != b[i] {
            return false;
        }
        i += 1;
    }
    assert(a@ =~= b@);
    true
}

fn copy_range(s: &[u8], from: usize, to: usize) -> (r: Vec<u8>)
    requires
        from <= to <= s@.len(),
    ensures
        r@ == s@.subrange(from as int, to as int),
{
    let mut out: Vec<u8> = Vec::new();
    let mut i: usize = from;
    while i < to
        invariant
            from <= i <= to,
            to <= s@.len(),
            out@ == s@.subrange(from as int, i as int),
        decreases to - i,
    {
        out.push(s[i]);
        i += 1;
        assert(out@ =~= s@.subrange(from as int, i as int));
    }
    out
}

/// Index of the first byte at or after `from` that is not whitespace.
fn skip_spaces(s: &[u8], from: usize) -> (r: usize)
    requires
        from <= s@.len(),
    ensures
        from <= r <= s@.len(),
        s@.skip(r as int) == trim_start(s@.skip(from as int)),
{
    let mut i = from;
    while i < s.len() && (s[i] == 32 || (9 <= s[i] && s[i] <= 13))
        invariant
            from <= i <= s@.len(),
            trim_start(s@.skip(i as int)) == trim_start(s@.skip(from as int)),
        decreases s@.len() - i,
    {
        assert(s@.skip(i as int).drop_first() =~= s@.skip(i + 1));
        i += 1;
    }
    i
}

/// Index of the first space at or after `from`, or the length of `s`.
fn find_space(s: &[u8], from: usize) -> (r: usize)
    requires
        from <= s@.len(),
    ensures
        from <= r <= s@.len(),
        r - from == first_space(s@.skip(from as int)),
{
    let mut i = from;
    while i < s.len() && s[i] != 32
        invariant
            from <= i <= s@.len(),
            first_space(s@.skip(from as int)) == (i - from) + first_space(s@.skip(i as int)),
        decreases s@.len() - i,
    {
        assert(s@.skip(i as int).drop_first() =~= s@.skip(i + 1));
        i += 1;
    }
    i
}

/// Parses an input line: the first word after leading whitespace names the
/// command, and `echo` takes what follows that word and one space, with its
/// leading whitespace trimmed.
pub fn parse_command(line: &[u8]) -> (r: Command)
    ensures
        r@ == command_of(line@),
{
    let start = skip_spaces(line, 0);
    assert(line@.skip(0) =~= line@);
    if start == line.len() {
        return Command::Empty;
    }
    let end = find_space(line, start);
    let word = copy_range(line, start, end);
    let ghost t = line@.skip(start as int);
    assert(word@ =~= t.take(first_space(t)));
    if bytes_eq(word.as_slice(), "help".as_bytes()) {
        Command::Help
    } else if bytes_eq(word.as_slice(), "clear".as_bytes()) {
        Command::Clear
    } else if bytes_eq(word.as_slice(), "echo".as_bytes()) {
        if end < line.len() {
            let a = skip_spaces(line, end + 1);
            assert(t.skip(first_space(t) + 1) =~= line@.skip(end + 1));
            let args = copy_range(line, a, line.len());
            assert(args@ =~= line@.skip(a as int));
            Command::Echo(args)
        } else {
            Command::Echo(Vec::new())
        }
    } else if bytes_eq(word.as_slice(), "info".as_bytes()) {
        Command::Info
    } else if bytes_eq(word.as_slice(), "reboot".as_bytes()) {
        Command::Reboot
    } else {
        Command::Unknown(word)
    }
}

} // verus!
