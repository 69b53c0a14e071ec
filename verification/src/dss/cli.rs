use vstd::prelude::*;

use crate::dss::report::strings_model;
use vstd::string::StringSliceAdditionalSpecFns;

verus! {

/// What the client was asked to do.
#[derive(Debug, PartialEq, Eq)]
pub enum Command {
    /// `cades <firma.p7s> [original.txt]`: validate a CAdES signature file,
    /// with the original document for a detached signature.
    ValidateCades { signature: String, original: Option<String> },
    /// `pades <documento.pdf>`: validate a signed PDF.
    ValidatePades { document: String },
    /// `sign-cades-bb [original.txt]`: sign CAdES B-B in memory and validate it.
    SignCadesBb { data: Option<String> },
    /// `sign-pades-bb <documento.pdf>`: sign PAdES B-B in memory and validate it.
    SignPadesBb { pdf: String },
    /// `sign-cades-t [original.txt]`: sign CAdES B-T in memory and validate it.
    SignCadesT { data: Option<String> },
    /// `sign-pades-t <documento.pdf>`: sign PAdES B-T in memory and validate it.
    SignPadesT { pdf: String },
}

/// The model of a [`Command`]: paths are sequences of characters.
pub enum CommandModel {
    ValidateCades { signature: Seq<char>, original: Option<Seq<char>> },
    ValidatePades { document: Seq<char> },
    SignCadesBb { data: Option<Seq<char>> },
    SignPadesBb { pdf: Seq<char> },
    SignCadesT { data: Option<Seq<char>> },
    SignPadesT { pdf: Seq<char> },
}

/// The text of an optional string.
pub open spec fn opt_text(s: Option<String>) -> Option<Seq<char>> {
    match s {
        Some(s) => Some(s@),
        None => None,
    }
}

impl View for Command {
    type V = CommandModel;

    open spec fn view(&self) -> CommandModel {
        match self {
            Command::ValidateCades { signature, original } => CommandModel::ValidateCades {
                signature: signature@,
                original: opt_text(*original),
            },
            Command::ValidatePades { document } => CommandModel::ValidatePades { document: document@ },
            Command::SignCadesBb { data } => CommandModel::SignCadesBb { data: opt_text(*data) },
            Command::SignPadesBb { pdf } => CommandModel::SignPadesBb { pdf: pdf@ },
            Command::SignCadesT { data } => CommandModel::SignCadesT { data: opt_text(*data) },
            Command::SignPadesT { pdf } => CommandModel::SignPadesT { pdf: pdf@ },
        }
    }
}

/// Why the command line is refused; the client then shows its usage and
/// exits with status 1.
#[derive(Debug, PartialEq, Eq)]
pub enum CliError {
    /// No subcommand was given.
    NoCommand,
    /// The named subcommand needs a PDF file and none was given.
    PdfRequired(String),
    /// The subcommand is not known.
    UnknownCommand(String),
}

/// The model of a [`CliError`].
pub enum CliErrorModel {
    NoCommand,
    PdfRequired(Seq<char>),
    UnknownCommand(Seq<char>),
}

impl View for CliError {
    type V = CliErrorModel;

    open spec fn view(&self) -> CliErrorModel {
        match self {
            CliError::NoCommand => CliErrorModel::NoCommand,
            CliError::PdfRequired(c) => CliErrorModel::PdfRequired(c@),
            CliError::UnknownCommand(c) => CliErrorModel::UnknownCommand(c@),
        }
    }
}

/// A command line the client accepts.
#[derive(Debug, PartialEq, Eq)]
pub struct Invocation {
    /// Whether the trust chain is ignored (`--no-trust` was given).
    pub no_trust: bool,
    /// The subcommand and its files.
    pub command: Command,
}

/// The flag that turns off trust-chain validation.
pub open spec fn no_trust_flag() -> Seq<char> {
    "--no-trust"@
}

/// The arguments with every `--no-trust` left out, in order.
pub open spec fn without_flags(args: Seq<Seq<char>>) -> Seq<Seq<char>>
    decreases args.len(),
{
    if args.len() == 0 {
        Seq::empty()
    } else {
        let init = without_flags(args.drop_last());
        if args.last() == no_trust_flag() {
            init
        } else {
            init.push(args.last())
        }
    }
}

/// The positional arguments: those after the program name that are not `--no-trust`.
pub open spec fn positional(args: Seq<Seq<char>>) -> Seq<Seq<char>> {
    without_flags(args.drop_first())
}

/// Whether `--no-trust` was given (it may stand anywhere).
pub open spec fn spec_no_trust(args: Seq<Seq<char>>) -> bool {
    args.contains(no_trust_flag())
}

/// The argument after the subcommand, if any.
pub open spec fn second(pos: Seq<Seq<char>>) -> Option<Seq<char>> {
    if pos.len() > 1 {
        Some(pos[1])
    } else {
        None
    }
}

/// What the positional arguments ask for.
pub open spec fn spec_command(pos: Seq<Seq<char>>) -> Result<CommandModel, CliErrorModel> {
    if pos.len() == 0 {
        Err(CliErrorModel::NoCommand)
    } else if pos[0] == "cades"@ {
        Ok(
            CommandModel::ValidateCades {
                signature: pos[1],
                original: if pos.len() > 2 {
                    Some(pos[2])
                } else {
                    None
                },
            },
        )
    } else if pos[0] == "pades"@ {
        Ok(CommandModel::ValidatePades { document: pos[1] })
    } else if pos[0] == "sign-cades-bb"@ {
        Ok(CommandModel::SignCadesBb { data: second(pos) })
    } else if pos[0] == "sign-pades-bb"@ {
        if pos.len() < 2 {
            Err(CliErrorModel::PdfRequired(pos[0]))
        } else {
            Ok(CommandModel::SignPadesBb { pdf: pos[1] })
        }
    } else if pos[0] == "sign-cades-t"@ {
        Ok(CommandModel::SignCadesT { data: second(pos) })
    } else if pos[0] == "sign-pades-t"@ {
        if pos.len() < 2 {
            Err(CliErrorModel::PdfRequired(pos[0]))
        } else {
            Ok(CommandModel::SignPadesT { pdf: pos[1] })
        }
    } else {
        Err(CliErrorModel::UnknownCommand(pos[0]))
    }
}

/// The command lines the client can read without failing: there is a program
/// name, and `cades` and `pades` are followed by a file.
pub open spec fn args_readable(args: Seq<Seq<char>>) -> bool {
    &&& args.len() >= 1
    &&& {
        let pos = positional(args);
        (pos.len() >= 1 && (pos[0] == "cades"@ || pos[0] == "pades"@)) ==> pos.len() >= 2
    }
}

/// Whether `s` holds the same text as `t`.
fn same_text(s: &String, t: &str) -> (res: bool)
    ensures
        res == (s@ == t@),
{
    let owned = t.to_owned();
    *s == owned
}

/// The argument after the subcommand, if any.
fn second_arg(pos: &Vec<String>) -> (res: Option<String>)
    ensures
        opt_text(res) == second(strings_model(pos@)),
{
    if pos.len() > 1 {
        Some(pos[1].clone())
    } else {
        None
    }
}

/// Reads the command line `args` (the program name first): `--no-trust` may
/// stand anywhere and is not a positional argument; the first positional
/// argument names the subcommand, the next ones its files.
pub fn parse_args(args: &Vec<String>) -> (res: Result<Invocation, CliError>)
    requires
        args_readable(strings_model(args@)),
    ensures
        match res {
            Ok(inv) => {
                &&& spec_command(positional(strings_model(args@))) == Ok::<CommandModel, CliErrorModel>(inv.command@)
                &&& inv.no_trust == spec_no_trust(strings_model(args@))
            },
            Err(e) => spec_command(positional(strings_model(args@))) == Err::<CommandModel, CliErrorModel>(e@),
        },
{
    let ghost all = strings_model(args@);
    let mut no_trust = false;
    let mut pos: Vec<String> = Vec::new();
    let mut i: usize = 0;
    proof {
        assert(all.drop_first().take(0) =~= Seq::<Seq<char>>::empty());
    }
    while i < args.len()
        invariant
            0 <= i <= args.len(),
            all == strings_model(args@),
            all.len() == args.len(),
            args.len() >= 1,
            no_trust == all.take(i as int).contains(no_trust_flag()),
            i >= 1 ==> strings_model(pos@) == without_flags(all.drop_first().take(i - 1)),
            i == 0 ==> pos@.len() == 0,
        decreases args.len() - i,
    {
        let is_flag = same_text(&args[i], "--no-trust");
        assert(all[i as int] == args@[i as int]@);
        assert(all.take(i + 1) =~= all.take(i as int).push(all[i as int]));
        proof {
            let t = all.take(i as int);
            let t1 = all.take(i + 1);
            if is_flag {
                assert(t1[i as int] == no_trust_flag());
            }
            if t.contains(no_trust_flag()) {
                let k = choose|k: int| 0 <= k < t.len() && t[k] == no_trust_flag();
                assert(t1[k] == no_trust_flag());
            }
            if t1.contains(no_trust_flag()) && !is_flag {
                let k = choose|k: int| 0 <= k < t1.len() && t1[k] == no_trust_flag();
                assert(t[k] == no_trust_flag());
            }
        }
        if is_flag {
            no_trust = true;
        }
        let ghost before = pos@;
        if i >= 1 {
            if !is_flag {
                pos.push(args[i].clone());
            }
            proof {
                let rest = all.drop_first();
                assert(rest.take(i as int).drop_last() =~= rest.take(i - 1));
                assert(rest.take(i as int).last() == all[i as int]);
                if !is_flag {
                    assert(strings_model(pos@) =~= strings_model(before).push(all[i as int]));
                }
            }
        }
        i = i + 1;
    }
    proof {
        assert(all.take(args.len() as int) =~= all);
        assert(all.drop_first().take(args.len() - 1) =~= all.drop_first());
    }
    let ghost p = strings_model(pos@);
    assert(p == positional(all));
    if pos.len() == 0 {
        return Err(CliError::NoCommand);
    }
    assert(p[0] == pos@[0]@);
    let command = if same_text(&pos[0], "cades") {
        assert(p[1] == pos@[1]@);
        let original = if pos.len() > 2 {
            assert(p[2] == pos@[2]@);
            Some(pos[2].clone())
        } else {
            None
        };
        Command::ValidateCades { signature: pos[1].clone(), original }
    } else if same_text(&pos[0], "pades") {
        assert(p[1] == pos@[1]@);
        Command::ValidatePades { document: pos[1].clone() }
    } else if same_text(&pos[0], "sign-cades-bb") {
        Command::SignCadesBb { data: second_arg(&pos) }
    } else if same_text(&pos[0], "sign-pades-bb") {
        if pos.len() < 2 {
            return Err(CliError::PdfRequired(pos[0].clone()));
        }
        assert(p[1] == pos@[1]@);
        Command::SignPadesBb { pdf: pos[1].clone() }
    } else if same_text(&pos[0], "sign-cades-t") {
        Command::SignCadesT { data: second_arg(&pos) }
    } else if same_text(&pos[0], "sign-pades-t") {
        if pos.len() < 2 {
            return Err(CliError::PdfRequired(pos[0].clone()));
        }
        assert(p[1] == pos@[1]@);
        Command::SignPadesT { pdf: pos[1].clone() }
    } else {
        return Err(CliError::UnknownCommand(pos[0].clone()));
    };
    Ok(Invocation { no_trust, command })
}

/// Inserting `--no-trust` anywhere in a sequence of arguments leaves the
/// others, in their order, as they were.
proof fn lemma_without_flags_insert(args: Seq<Seq<char>>, j: int)
    requires
        0 <= j <= args.len(),
    ensures
        without_flags(args.insert(j, no_trust_flag())) == without_flags(args),
    decreases args.len(),
{
    let t = args.insert(j, no_trust_flag());
    if j == args.len() {
        assert(t.drop_last() =~= args);
    } else {
        assert(t.drop_last() =~= args.drop_last().insert(j, no_trust_flag()));
        assert(t.last() == args.last());
        lemma_without_flags_insert(args.drop_last(), j);
    }
}

/// `--no-trust` may stand anywhere after the program name: inserting it turns
/// trust-chain validation off and changes nothing else, neither the positional
/// arguments nor the subcommand they ask for, nor whether the line can be read.
pub proof fn lemma_no_trust_anywhere(args: Seq<Seq<char>>, k: int)
    requires
        1 <= k <= args.len(),
    ensures
        positional(args.insert(k, no_trust_flag())) == positional(args),
        spec_no_trust(args.insert(k, no_trust_flag())),
        spec_command(positional(args.insert(k, no_trust_flag()))) == spec_command(positional(args)),
        args_readable(args) ==> args_readable(args.insert(k, no_trust_flag())),
{
    let t = args.insert(k, no_trust_flag());
    assert(t.drop_first() =~= args.drop_first().insert(k - 1, no_trust_flag()));
    lemma_without_flags_insert(args.drop_first(), k - 1);
    assert(t[k] == no_trust_flag());
}

impl CliError {
    /// The message shown before the usage, if any.
    pub open spec fn spec_message(&self) -> Option<Seq<char>> {
        match self {
            CliError::NoCommand => None,
            CliError::PdfRequired(c) => Some(c@ + " requiere un fichero PDF"@),
            CliError::UnknownCommand(c) => Some("Comando desconocido: '"@ + c@ + "'"@),
        }
    }

    /// The message shown before the usage, if any.
    pub fn message(&self) -> (res: Option<String>)
        ensures
            opt_text(res) == self.spec_message(),
    {
        match self {
            CliError::NoCommand => None,
            CliError::PdfRequired(c) => Some(c.clone().concat(" requiere un fichero PDF")),
            CliError::UnknownCommand(c) => Some(
                String::from_str("Comando desconocido: '").concat(c.as_str()).concat("'"),
            ),
        }
    }
}

/// The lines of the usage text of the client, `prog` being its name.
pub open spec fn spec_usage_lines(prog: Seq<char>) -> Seq<Seq<char>> {
    seq![
        "Uso:"@,
        "  "@ + prog + " [--no-trust] cades <firma.p7s> [original.txt]"@,
        "  "@ + prog + " [--no-trust] pades <documento.pdf>"@,
        "  "@ + prog + " [--no-trust] sign-cades-bb [original.txt]"@,
        "  "@ + prog + " [--no-trust] sign-pades-bb <documento.pdf>"@,
        "  "@ + prog + " [--no-trust] sign-cades-t [original.txt]"@,
        "  "@ + prog + " [--no-trust] sign-pades-t <documento.pdf>"@,
        ""@,
        "  --no-trust  ignora cadena de confianza (para certs de test/autofirmados)"@,
        ""@,
        "Los subcomandos sign-* generan la firma en memoria con SoftSigner + FreeTSA"@,
        "y la envían directamente a DSS para validación."@,
    ]
}

/// One line of the usage text: `prog` between an indent and `rest`.
fn usage_line(prog: &str, rest: &str) -> (res: String)
    ensures
        res@ == "  "@ + prog@ + rest@,
{
    String::from_str("  ").concat(prog).concat(rest)
}

/// The lines of the usage text of the client, `prog` being its name.
pub fn usage_lines(prog: &str) -> (res: Vec<String>)
    ensures
        strings_model(res@) == spec_usage_lines(prog@),
{
    let lines = vec![
        String::from_str("Uso:"),
        usage_line(prog, " [--no-trust] cades <firma.p7s> [original.txt]"),
        usage_line(prog, " [--no-trust] pades <documento.pdf>"),
        usage_line(prog, " [--no-trust] sign-cades-bb [original.txt]"),
        usage_line(prog, " [--no-trust] sign-pades-bb <documento.pdf>"),
        usage_line(prog, " [--no-trust] sign-cades-t [original.txt]"),
        usage_line(prog, " [--no-trust] sign-pades-t <documento.pdf>"),
        String::from_str(""),
        String::from_str("  --no-trust  ignora cadena de confianza (para certs de test/autofirmados)"),
        String::from_str(""),
        String::from_str("Los subcomandos sign-* generan la firma en memoria con SoftSigner + FreeTSA"),
        String::from_str("y la envían directamente a DSS para validación."),
    ];
    assert(strings_model(lines@) =~= spec_usage_lines(prog@));
    lines
}

impl Command {
    /// The data signed by `sign-cades-bb` or `sign-cades-t` when no file is
    /// given; `None` for the other subcommands and when a file is given.
    pub open spec fn spec_default_data(&self) -> Option<Seq<u8>> {
        match self {
            Command::SignCadesBb { data: None } => Some("hello world cades-bb".spec_bytes()),
            Command::SignCadesT { data: None } => Some("hello world cades-t".spec_bytes()),
            _ => None,
        }
    }

    /// The data signed by `sign-cades-bb` or `sign-cades-t` when no file is
    /// given; `None` for the other subcommands and when a file is given.
    pub fn default_data(&self) -> (res: Option<Vec<u8>>)
        ensures
            match res {
                Some(bytes) => self.spec_default_data() == Some(bytes@),
                None => self.spec_default_data() is None,
            },
    {
        match self {
            Command::SignCadesBb { data: None } => Some(vstd::slice::slice_to_vec("hello world cades-bb".as_bytes())),
            Command::SignCadesT { data: None } => Some(vstd::slice::slice_to_vec("hello world cades-t".as_bytes())),
            _ => None,
        }
    }
}

/// Law: the positional arguments are the arguments after the program name
/// with every `--no-trust` filtered out, the others kept in their order.
pub proof fn law_positional_filters_flags(args: Seq<Seq<char>>)
    ensures
        positional(args) == args.drop_first().filter(|a: Seq<char>| a != no_trust_flag()),
{
    lemma_without_flags_is_filter(args.drop_first());
}

proof fn lemma_without_flags_is_filter(s: Seq<Seq<char>>)
    ensures
        without_flags(s) == s.filter(|a: Seq<char>| a != no_trust_flag()),
    decreases s.len(),
{
    reveal(Seq::filter);
    if s.len() > 0 {
        lemma_without_flags_is_filter(s.drop_last());
    }
}

/// Law: the file given after a signing subcommand that takes an optional file
/// (`sign-cades-bb`, `sign-cades-t`) is never dropped: it is the data to sign;
/// only without one is there no data file.
pub proof fn law_sign_keeps_data_file(pos: Seq<Seq<char>>)
    requires
        pos.len() >= 1,
    ensures
        pos[0] == "sign-cades-bb"@ && pos.len() >= 2 ==> spec_command(pos) == Ok::<CommandModel, CliErrorModel>(
            CommandModel::SignCadesBb { data: Some(pos[1]) },
        ),
        pos[0] == "sign-cades-bb"@ && pos.len() == 1 ==> spec_command(pos) == Ok::<CommandModel, CliErrorModel>(
            CommandModel::SignCadesBb { data: None },
        ),
        pos[0] == "sign-cades-t"@ && pos.len() >= 2 ==> spec_command(pos) == Ok::<CommandModel, CliErrorModel>(
            CommandModel::SignCadesT { data: Some(pos[1]) },
        ),
        pos[0] == "sign-cades-t"@ && pos.len() == 1 ==> spec_command(pos) == Ok::<CommandModel, CliErrorModel>(
            CommandModel::SignCadesT { data: None },
        ),
{
    reveal_strlit("sign-cades-bb");
    reveal_strlit("sign-cades-t");
    reveal_strlit("cades");
    reveal_strlit("pades");
    reveal_strlit("sign-pades-bb");
    assert("sign-cades-bb"@.len() != "cades"@.len());
    assert("sign-cades-bb"@.len() != "pades"@.len());
    assert("sign-cades-t"@.len() != "cades"@.len());
    assert("sign-cades-t"@.len() != "pades"@.len());
    assert("sign-cades-t"@.len() != "sign-cades-bb"@.len());
    assert("sign-cades-t"@.len() != "sign-pades-bb"@.len());
}

/// Law: every subcommand that needs a file gets the argument that follows it:
/// `cades` its signature (and the next one as original, when given), `pades`
/// its document, `sign-pades-bb` and `sign-pades-t` their PDF; a PDF subcommand
/// without one is refused, naming the subcommand.
pub proof fn law_commands_take_their_files(pos: Seq<Seq<char>>)
    requires
        pos.len() >= 1,
    ensures
        pos[0] == "cades"@ && pos.len() >= 2 ==> spec_command(pos) == Ok::<CommandModel, CliErrorModel>(
            CommandModel::ValidateCades {
                signature: pos[1],
                original: if pos.len() >= 3 {
                    Some(pos[2])
                } else {
                    None
                },
            },
        ),
        pos[0] == "pades"@ && pos.len() >= 2 ==> spec_command(pos) == Ok::<CommandModel, CliErrorModel>(
            CommandModel::ValidatePades { document: pos[1] },
        ),
        pos[0] == "sign-pades-bb"@ && pos.len() >= 2 ==> spec_command(pos) == Ok::<CommandModel, CliErrorModel>(
            CommandModel::SignPadesBb { pdf: pos[1] },
        ),
        pos[0] == "sign-pades-bb"@ && pos.len() == 1 ==> spec_command(pos) == Err::<CommandModel, CliErrorModel>(
            CliErrorModel::PdfRequired("sign-pades-bb"@),
        ),
        pos[0] == "sign-pades-t"@ && pos.len() >= 2 ==> spec_command(pos) == Ok::<CommandModel, CliErrorModel>(
            CommandModel::SignPadesT { pdf: pos[1] },
        ),
        pos[0] == "sign-pades-t"@ && pos.len() == 1 ==> spec_command(pos) == Err::<CommandModel, CliErrorModel>(
            CliErrorModel::PdfRequired("sign-pades-t"@),
        ),
{
    reveal_strlit("cades");
    reveal_strlit("pades");
    reveal_strlit("sign-cades-bb");
    reveal_strlit("sign-pades-bb");
    reveal_strlit("sign-cades-t");
    reveal_strlit("sign-pades-t");
    assert("pades"@[0] != "cades"@[0]);
    assert("sign-pades-bb"@.len() != "cades"@.len());
    assert("sign-pades-bb"@.len() != "pades"@.len());
    assert("sign-pades-bb"@[5] != "sign-cades-bb"@[5]);
    assert("sign-pades-t"@.len() != "cades"@.len());
    assert("sign-pades-t"@.len() != "pades"@.len());
    assert("sign-pades-t"@.len() != "sign-cades-bb"@.len());
    assert("sign-pades-t"@.len() != "sign-pades-bb"@.len());
    assert("sign-pades-t"@[5] != "sign-cades-t"@[5]);
}

} // verus!
