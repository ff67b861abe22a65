//! The command line: `[-v] [-l listen_key] [-s send_key] <device-path>`.

use vstd::prelude::*;

use crate::text::{chars_equal, parse_u32, parse_u32_from};

verus! {

/// The settings that the command line selects.
#[derive(Debug, PartialEq, Eq)]
pub struct Config {
    /// Log the configuration and the matching input events.
    pub verbose: bool,
    /// The key to listen for in the event stream.
    pub listen_key: String,
    /// The key to send to X11 when a matching event is detected.
    pub send_key: String,
    /// The mouse button to send to X11 in place of `send_key`.
    pub mouse_button: Option<u32>,
    /// The input device to watch.
    pub input_device_path: String,
}

/// A `Config` as plain values.
pub struct ConfigView {
    pub verbose: bool,
    pub listen_key: Seq<char>,
    pub send_key: Seq<char>,
    pub mouse_button: Option<u32>,
    pub input_device_path: Seq<char>,
}

impl View for Config {
    type V = ConfigView;

    open spec fn view(&self) -> ConfigView {
        ConfigView {
            verbose: self.verbose,
            listen_key: self.listen_key@,
            send_key: self.send_key@,
            mouse_button: self.mouse_button,
            input_device_path: self.input_device_path@,
        }
    }
}

/// The usage line shown for a malformed command line.
pub open spec fn usage_text(program: Seq<char>) -> Seq<char> {
    "Usage: "@ + program + " [-v] [-l listen_key] [-s send_key] /dev/input/by-id/<device-name>"@
}

/// The program name: the first argument, or `wayland-ptt` when there is none.
pub open spec fn program_name(args: Seq<Seq<char>>) -> Seq<char> {
    if args.len() == 0 {
        "wayland-ptt"@
    } else {
        args[0]
    }
}

/// The text of a refused `-s` value.
pub open spec fn invalid_button_text(value: Seq<char>) -> Seq<char> {
    "Invalid mouse_button value: "@ + value
}

/// The characters `MOUSE`.
pub open spec fn mouse_prefix() -> Seq<char> {
    seq!['M', 'O', 'U', 'S', 'E']
}

/// Whether a send key names a mouse button, that is, starts with `MOUSE`.
pub open spec fn names_mouse_button(value: Seq<char>) -> bool {
    value.len() >= 5 && value.subrange(0, 5) == mouse_prefix()
}

/// The mouse button that a send key names: none where it does not start
/// with `MOUSE`, else the number after `MOUSE`; `Err` where that is no
/// `u32`.
pub open spec fn mouse_button_of(value: Seq<char>) -> Result<Option<u32>, ()> {
    if names_mouse_button(value) {
        match parse_u32(value.skip(5)) {
            Some(n) => Ok(Some(n)),
            None => Err(()),
        }
    } else {
        Ok(None)
    }
}

/// What the parser has read so far.
pub struct ParseState {
    pub verbose: bool,
    pub listen_key: Seq<char>,
    pub send_key: Seq<char>,
    pub mouse_button: Option<u32>,
    pub device: Option<Seq<char>>,
}

/// The settings before any flag: quiet, listen for `KEY_LEFTMETA`, send
/// `Super_L`, no mouse button, no device yet.
pub open spec fn initial_state() -> ParseState {
    ParseState {
        verbose: false,
        listen_key: "KEY_LEFTMETA"@,
        send_key: "Super_L"@,
        mouse_button: None,
        device: None,
    }
}

/// Whether an argument looks like a flag.
pub open spec fn is_flag_like(arg: Seq<char>) -> bool {
    arg.len() > 0 && arg[0] == '-'
}

/// The outcome of reading `args[i..]` in state `st`.
pub open spec fn parse_from(program: Seq<char>, args: Seq<Seq<char>>, i: int, st: ParseState) -> Result<
    ConfigView,
    Seq<char>,
>
    decreases args.len() - i,
{
    if i >= args.len() {
        match st.device {
            Some(d) => Ok(
                ConfigView {
                    verbose: st.verbose,
                    listen_key: st.listen_key,
                    send_key: st.send_key,
                    mouse_button: st.mouse_button,
                    input_device_path: d,
                },
            ),
            None => Err(usage_text(program)),
        }
    } else {
        let arg = args[i];
        if arg == "-v"@ {
            parse_from(
                program,
                args,
                i + 1,
                ParseState {
                    verbose: true,
                    listen_key: st.listen_key,
                    send_key: st.send_key,
                    mouse_button: st.mouse_button,
                    device: st.device,
                },
            )
        } else if arg == "-l"@ {
            if i + 1 >= args.len() {
                Err(usage_text(program))
            } else {
                parse_from(
                    program,
                    args,
                    i + 2,
                    ParseState {
                        verbose: st.verbose,
                        listen_key: args[i + 1],
                        send_key: st.send_key,
                        mouse_button: st.mouse_button,
                        device: st.device,
                    },
                )
            }
        } else if arg == "-s"@ {
            if i + 1 >= args.len() {
                Err(usage_text(program))
            } else {
                let value = args[i + 1];
                match mouse_button_of(value) {
                    Err(_) => Err(invalid_button_text(value)),
                    Ok(button) => if button == Some(0u32) {
                        Err("Invalid mouse_button value: MOUSE0"@)
                    } else {
                        parse_from(
                            program,
                            args,
                            i + 2,
                            ParseState {
                                verbose: st.verbose,
                                listen_key: st.listen_key,
                                send_key: value,
                                mouse_button: button,
                                device: st.device,
                            },
                        )
                    },
                }
            }
        } else if is_flag_like(arg) {
            Err(usage_text(program))
        } else if st.device is Some {
            Err(usage_text(program))
        } else {
            parse_from(
                program,
                args,
                i + 1,
                ParseState {
                    verbose: st.verbose,
                    listen_key: st.listen_key,
                    send_key: st.send_key,
                    mouse_button: st.mouse_button,
                    device: Some(arg),
                },
            )
        }
    }
}

/// The outcome of parsing a whole command line, program name first.
pub open spec fn parse_args_spec(args: Seq<Seq<char>>) -> Result<ConfigView, Seq<char>> {
    parse_from(program_name(args), args, 1, initial_state())
}

/// The mouse button agrees with the send key: it is set exactly where the
/// send key starts with `MOUSE`, and then it is the nonzero number after
/// `MOUSE`.
pub open spec fn button_matches_send_key(send_key: Seq<char>, mouse_button: Option<u32>) -> bool {
    match mouse_button {
        Some(n) => n != 0 && names_mouse_button(send_key) && parse_u32(send_key.skip(5)) == Some(n),
        None => !names_mouse_button(send_key),
    }
}

/// `path` is one of `args[1..]` and does not start with `-`.
pub open spec fn is_positional_argument(args: Seq<Seq<char>>, path: Seq<char>) -> bool {
    exists|j: int| 1 <= j < args.len() && #[trigger] args[j] == path && !is_flag_like(path)
}

/// The refusals: the usage line, or the text of an invalid mouse button.
pub open spec fn is_refusal_text(program: Seq<char>, e: Seq<char>) -> bool {
    e == usage_text(program) || exists|v: Seq<char>| e == #[trigger] invalid_button_text(v)
}

/// What every step of the parser keeps.
pub open spec fn parse_state_ok(args: Seq<Seq<char>>, st: ParseState) -> bool {
    &&& button_matches_send_key(st.send_key, st.mouse_button)
    &&& (st.device matches Some(d) ==> is_positional_argument(args, d))
}

proof fn lemma_parse_from_keeps(program: Seq<char>, args: Seq<Seq<char>>, i: int, st: ParseState)
    requires
        1 <= i,
        parse_state_ok(args, st),
    ensures
        parse_from(program, args, i, st) matches Ok(c) ==> button_matches_send_key(
            c.send_key,
            c.mouse_button,
        ) && is_positional_argument(args, c.input_device_path),
        parse_from(program, args, i, st) matches Err(e) ==> is_refusal_text(program, e),
    decreases args.len() - i,
{
    if i >= args.len() {
    } else {
        let arg = args[i];
        if arg == "-v"@ {
            lemma_parse_from_keeps(
                program,
                args,
                i + 1,
                ParseState {
                    verbose: true,
                    listen_key: st.listen_key,
                    send_key: st.send_key,
                    mouse_button: st.mouse_button,
                    device: st.device,
                },
            );
        } else if arg == "-l"@ {
            if i + 1 < args.len() {
                lemma_parse_from_keeps(
                    program,
                    args,
                    i + 2,
                    ParseState {
                        verbose: st.verbose,
                        listen_key: args[i + 1],
                        send_key: st.send_key,
                        mouse_button: st.mouse_button,
                        device: st.device,
                    },
                );
            }
        } else if arg == "-s"@ {
            if i + 1 < args.len() {
                let value = args[i + 1];
                match mouse_button_of(value) {
                    Err(_) => {
                        assert(is_refusal_text(program, invalid_button_text(value)));
                    },
                    Ok(button) => {
                        if button == Some(0u32) {
                            reveal_strlit("Invalid mouse_button value: MOUSE0");
                            reveal_strlit("Invalid mouse_button value: ");
                            reveal_strlit("MOUSE0");
                            assert("Invalid mouse_button value: MOUSE0"@ =~= invalid_button_text(
                                "MOUSE0"@,
                            ));
                        } else {
                            let next = ParseState {
                                verbose: st.verbose,
                                listen_key: st.listen_key,
                                send_key: value,
                                mouse_button: button,
                                device: st.device,
                            };
                            assert(button_matches_send_key(value, button));
                            lemma_parse_from_keeps(program, args, i + 2, next);
                        }
                    },
                }
            }
        } else if is_flag_like(arg) {
        } else if st.device is Some {
        } else {
            let next = ParseState {
                verbose: st.verbose,
                listen_key: st.listen_key,
                send_key: st.send_key,
                mouse_button: st.mouse_button,
                device: Some(arg),
            };
            assert(args[i] == arg);
            assert(is_positional_argument(args, arg));
            lemma_parse_from_keeps(program, args, i + 1, next);
        }
    }
}

/// An accepted command line sets the mouse button exactly where the send
/// key starts with `MOUSE`, to the nonzero number after `MOUSE`, and names as
/// its device one of its arguments that does not start with `-`.
pub proof fn lemma_accepted_command_line(args: Seq<Seq<char>>)
    requires
        parse_args_spec(args) is Ok,
    ensures
        button_matches_send_key(
            parse_args_spec(args)->Ok_0.send_key,
            parse_args_spec(args)->Ok_0.mouse_button,
        ),
        is_positional_argument(args, parse_args_spec(args)->Ok_0.input_device_path),
{
    reveal_strlit("Super_L");
    assert(initial_state().send_key[0] == 'S');
    assert(!names_mouse_button(initial_state().send_key));
    lemma_parse_from_keeps(program_name(args), args, 1, initial_state());
}

/// A refused command line is answered either with the usage line or with
/// the text of an invalid mouse button.
pub proof fn lemma_refused_command_line(args: Seq<Seq<char>>)
    requires
        parse_args_spec(args) is Err,
    ensures
        is_refusal_text(program_name(args), parse_args_spec(args)->Err_0),
{
    reveal_strlit("Super_L");
    assert(initial_state().send_key[0] == 'S');
    assert(!names_mouse_button(initial_state().send_key));
    lemma_parse_from_keeps(program_name(args), args, 1, initial_state());
}

/// The settings that a finished parse in state `st` yields.
pub open spec fn finished_config(st: ParseState) -> ConfigView {
    ConfigView {
        verbose: st.verbose,
        listen_key: st.listen_key,
        send_key: st.send_key,
        mouse_button: st.mouse_button,
        input_device_path: st.device->Some_0,
    }
}

/// A parse of `a` from index `i` that is accepted goes through `a` to its end
/// in some state `fin`, and more arguments after `a` are read from that same
/// state.
proof fn lemma_parse_extends(
    program: Seq<char>,
    a: Seq<Seq<char>>,
    e: Seq<Seq<char>>,
    i: int,
    st: ParseState,
) -> (fin: ParseState)
    requires
        0 <= i <= a.len(),
        parse_from(program, a, i, st) is Ok,
    ensures
        fin.device is Some,
        parse_from(program, a, i, st) == Ok::<ConfigView, Seq<char>>(finished_config(fin)),
        parse_from(program, a + e, i, st) == parse_from(program, a + e, a.len() as int, fin),
    decreases a.len() - i,
{
    let ae = a + e;
    if i >= a.len() {
        st
    } else {
        let arg = a[i];
        assert(ae[i] == arg);
        if arg == "-v"@ {
            lemma_parse_extends(
                program,
                a,
                e,
                i + 1,
                ParseState {
                    verbose: true,
                    listen_key: st.listen_key,
                    send_key: st.send_key,
                    mouse_button: st.mouse_button,
                    device: st.device,
                },
            )
        } else if arg == "-l"@ {
            assert(ae[i + 1] == a[i + 1]);
            lemma_parse_extends(
                program,
                a,
                e,
                i + 2,
                ParseState {
                    verbose: st.verbose,
                    listen_key: a[i + 1],
                    send_key: st.send_key,
                    mouse_button: st.mouse_button,
                    device: st.device,
                },
            )
        } else if arg == "-s"@ {
            assert(ae[i + 1] == a[i + 1]);
            let value = a[i + 1];
            let button = mouse_button_of(value)->Ok_0;
            lemma_parse_extends(
                program,
                a,
                e,
                i + 2,
                ParseState {
                    verbose: st.verbose,
                    listen_key: st.listen_key,
                    send_key: value,
                    mouse_button: button,
                    device: st.device,
                },
            )
        } else {
            lemma_parse_extends(
                program,
                a,
                e,
                i + 1,
                ParseState {
                    verbose: st.verbose,
                    listen_key: st.listen_key,
                    send_key: st.send_key,
                    mouse_button: st.mouse_button,
                    device: Some(arg),
                },
            )
        }
    }
}

/// An accepted command line has a program name, and more arguments after it
/// keep that name.
proof fn lemma_accepted_keeps_program(args: Seq<Seq<char>>, e: Seq<Seq<char>>)
    requires
        parse_args_spec(args) is Ok,
    ensures
        args.len() >= 1,
        program_name(args + e) == program_name(args),
{
    if args.len() == 0 {
        assert(parse_args_spec(args) == Err::<ConfigView, Seq<char>>(usage_text(program_name(args))));
    }
    assert((args + e)[0] == args[0]);
}

/// The three flags are told apart.
proof fn lemma_flags_differ()
    ensures
        "-v"@ != "-l"@,
        "-v"@ != "-s"@,
        "-l"@ != "-s"@,
{
    reveal_strlit("-v");
    reveal_strlit("-l");
    reveal_strlit("-s");
    assert("-v"@[1] != "-l"@[1]);
    assert("-v"@[1] != "-s"@[1]);
    assert("-l"@[1] != "-s"@[1]);
}

/// `-l x` added to an accepted command line changes the listen key to `x`
/// and nothing else: the send key, the mouse button, the verbosity and the
/// device stay as they were.
pub proof fn lemma_trailing_listen_flag(args: Seq<Seq<char>>, x: Seq<char>)
    requires
        parse_args_spec(args) is Ok,
    ensures
        ({
            let c = parse_args_spec(args)->Ok_0;
            parse_args_spec(args + seq!["-l"@, x]) == Ok::<ConfigView, Seq<char>>(
                ConfigView {
                    verbose: c.verbose,
                    listen_key: x,
                    send_key: c.send_key,
                    mouse_button: c.mouse_button,
                    input_device_path: c.input_device_path,
                },
            )
        }),
{
    let e = seq!["-l"@, x];
    let ae = args + e;
    lemma_accepted_keeps_program(args, e);
    lemma_flags_differ();
    let program = program_name(args);
    let fin = lemma_parse_extends(program, args, e, 1, initial_state());
    let n = args.len() as int;
    assert(ae[n] == "-l"@);
    assert(ae[n + 1] == x);
    let next = ParseState {
        verbose: fin.verbose,
        listen_key: x,
        send_key: fin.send_key,
        mouse_button: fin.mouse_button,
        device: fin.device,
    };
    assert(parse_from(program, ae, n, fin) == parse_from(program, ae, n + 2, next));
    assert(parse_from(program, ae, n + 2, next) == Ok::<ConfigView, Seq<char>>(finished_config(next)));
}

/// `-v` added to an accepted command line makes it verbose and changes
/// nothing else.
pub proof fn lemma_trailing_verbose_flag(args: Seq<Seq<char>>)
    requires
        parse_args_spec(args) is Ok,
    ensures
        ({
            let c = parse_args_spec(args)->Ok_0;
            parse_args_spec(args + seq!["-v"@]) == Ok::<ConfigView, Seq<char>>(
                ConfigView {
                    verbose: true,
                    listen_key: c.listen_key,
                    send_key: c.send_key,
                    mouse_button: c.mouse_button,
                    input_device_path: c.input_device_path,
                },
            )
        }),
{
    let e = seq!["-v"@];
    let ae = args + e;
    lemma_accepted_keeps_program(args, e);
    let program = program_name(args);
    let fin = lemma_parse_extends(program, args, e, 1, initial_state());
    let n = args.len() as int;
    assert(ae[n] == "-v"@);
    let next = ParseState {
        verbose: true,
        listen_key: fin.listen_key,
        send_key: fin.send_key,
        mouse_button: fin.mouse_button,
        device: fin.device,
    };
    assert(parse_from(program, ae, n, fin) == parse_from(program, ae, n + 1, next));
    assert(parse_from(program, ae, n + 1, next) == Ok::<ConfigView, Seq<char>>(finished_config(next)));
}

/// `-s v` added to an accepted command line, where accepted, makes `v` the
/// send key and sets the mouse button from `v` alone (set exactly where `v`
/// starts with `MOUSE`); the listen key, the verbosity and the device stay as
/// they were. A `v` that does not start with `MOUSE` is always accepted and
/// clears the mouse button.
pub proof fn lemma_trailing_send_flag(args: Seq<Seq<char>>, v: Seq<char>)
    requires
        parse_args_spec(args) is Ok,
    ensures
        ({
            let c = parse_args_spec(args)->Ok_0;
            let r = parse_args_spec(args + seq!["-s"@, v]);
            &&& r matches Ok(c2) ==> c2.send_key == v && c2.listen_key == c.listen_key && c2.verbose
                == c.verbose && c2.input_device_path == c.input_device_path
                && button_matches_send_key(v, c2.mouse_button)
            &&& !names_mouse_button(v) ==> r == Ok::<ConfigView, Seq<char>>(
                ConfigView {
                    verbose: c.verbose,
                    listen_key: c.listen_key,
                    send_key: v,
                    mouse_button: None,
                    input_device_path: c.input_device_path,
                },
            )
        }),
{
    let e = seq!["-s"@, v];
    let ae = args + e;
    lemma_accepted_keeps_program(args, e);
    lemma_flags_differ();
    let program = program_name(args);
    let fin = lemma_parse_extends(program, args, e, 1, initial_state());
    let n = args.len() as int;
    assert(ae[n] == "-s"@);
    assert(ae[n + 1] == v);
    match mouse_button_of(v) {
        Err(_) => {},
        Ok(button) => {
            if button != Some(0u32) {
                let next = ParseState {
                    verbose: fin.verbose,
                    listen_key: fin.listen_key,
                    send_key: v,
                    mouse_button: button,
                    device: fin.device,
                };
                assert(parse_from(program, ae, n, fin) == parse_from(program, ae, n + 2, next));
                assert(parse_from(program, ae, n + 2, next) == Ok::<ConfigView, Seq<char>>(
                    finished_config(next),
                ));
                assert(button_matches_send_key(v, button));
            }
        },
    }
}

/// The arguments as character sequences.
pub open spec fn arg_views(args: Seq<String>) -> Seq<Seq<char>> {
    args.map_values(|s: String| s@)
}

/// A parse result as plain values.
pub open spec fn parse_result_view(r: Result<Config, String>) -> Result<ConfigView, Seq<char>> {
    match r {
        Ok(c) => Ok(c@),
        Err(e) => Err(e@),
    }
}

/// The usage line for `program`.
pub fn usage(program: &str) -> (r: String)
    ensures
        r@ == usage_text(program@),
{
    let mut r = String::from_str("Usage: ");
    r.append(program);
    r.append(" [-v] [-l listen_key] [-s send_key] /dev/input/by-id/<device-name>");
    r
}

/// Whether `s` starts with `MOUSE`.
fn starts_with_mouse(s: &str) -> (r: bool)
    ensures
        r == names_mouse_button(s@),
{
    let n: usize = s.unicode_len();
    if n < 5 {
        return false;
    }
    let r = s.get_char(0) == 'M' && s.get_char(1) == 'O' && s.get_char(2) == 'U' && s.get_char(3)
        == 'S' && s.get_char(4) == 'E';
    assert(r == (s@.subrange(0, 5) =~= mouse_prefix()));
    r
}

/// The mouse button that the send key `value` names.
fn parse_mouse_button(value: &str) -> (r: Result<Option<u32>, ()>)
    ensures
        r == mouse_button_of(value@),
{
    if starts_with_mouse(value) {
        match parse_u32_from(value, 5) {
            Some(n) => Ok(Some(n)),
            None => Err(()),
        }
    } else {
        Ok(None)
    }
}

/// Reads a command line, program name first. Flags: `-v` (verbose),
/// `-l <key>` (listen key), `-s <key>` (send key; `MOUSE<n>` with `n` from 1
/// selects mouse button `n`); exactly one argument that does not start with
/// `-` names the input device. Any other form gives the usage line as the
/// error.
pub fn parse_args_from(args: Vec<String>) -> (r: Result<Config, String>)
    ensures
        parse_result_view(r) == parse_args_spec(arg_views(args@)),
{
    let ghost views = arg_views(args@);
    let n: usize = args.len();
    let program = if n == 0 {
        String::from_str("wayland-ptt")
    } else {
        args[0].clone()
    };
    assert(program@ == program_name(views));

    let mut verbose = false;
    let mut listen_key = String::from_str("KEY_LEFTMETA");
    let mut send_key = String::from_str("Super_L");
    let mut mouse_button: Option<u32> = None;
    let mut input_device_path: Option<String> = None;
    let mut i: usize = 1;

    while i < n
        invariant
            n == args@.len(),
            views == arg_views(args@),
            views.len() == n,
            1 <= i,
            program@ == program_name(views),
            parse_from(
                program@,
                views,
                i as int,
                ParseState {
                    verbose,
                    listen_key: listen_key@,
                    send_key: send_key@,
                    mouse_button,
                    device: match input_device_path {
                        Some(p) => Some(p@),
                        None => None,
                    },
                },
            ) == parse_args_spec(views),
        decreases n - i,
    {
        let arg = args[i].as_str();
        assert(arg@ == views[i as int]);
        if chars_equal(arg, "-v") {
            verbose = true;
            i += 1;
        } else if chars_equal(arg, "-l") {
            if i + 1 >= n {
                return Err(usage(program.as_str()));
            }
            listen_key = args[i + 1].clone();
            assert(listen_key@ == views[i + 1]);
            i += 2;
        } else if chars_equal(arg, "-s") {
            if i + 1 >= n {
                return Err(usage(program.as_str()));
            }
            let value = args[i + 1].clone();
            assert(value@ == views[i + 1]);
            match parse_mouse_button(value.as_str()) {
                Err(_) => {
                    let mut e = String::from_str("Invalid mouse_button value: ");
                    e.append(value.as_str());
                    return Err(e);
                },
                Ok(button) => {
                    if button == Some(0u32) {
                        return Err(String::from_str("Invalid mouse_button value: MOUSE0"));
                    }
                    mouse_button = button;
                    send_key = value;
                },
            }
            i += 2;
        } else if arg.unicode_len() > 0 && arg.get_char(0) == '-' {
            return Err(usage(program.as_str()));
        } else {
            if input_device_path.is_some() {
                return Err(usage(program.as_str()));
            }
            input_device_path = Some(args[i].clone());
            i += 1;
        }
    }

    match input_device_path {
        Some(path) => Ok(Config { verbose, listen_key, send_key, mouse_button, input_device_path: path }),
        None => Err(usage(program.as_str())),
    }
}

} // verus!
