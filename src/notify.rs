//! What a reminder or an ad-hoc request shows, and the `notify-send`
//! arguments that show it.
use vstd::prelude::*;

verus! {

/// A configured reminder: what it shows and how often (`interval`, as in
/// `30m`).
pub struct NotificationConfig {
    pub title: Option<String>,
    pub message: String,
    pub interval: String,
    pub urgency: Option<String>,
    pub expire_time: Option<u32>,
    pub app_name: Option<String>,
    pub icon: Option<String>,
    pub category: Option<String>,
    pub transient: Option<bool>,
}

/// A one-off notification asked for from outside: a reminder's content
/// without an interval.
pub struct AdhocNotification {
    pub title: Option<String>,
    pub message: String,
    pub urgency: Option<String>,
    pub expire_time: Option<u32>,
    pub app_name: Option<String>,
    pub icon: Option<String>,
    pub category: Option<String>,
    pub transient: Option<bool>,
}

/// The character of a decimal digit.
pub open spec fn digit_char(d: nat) -> char {
    seq!['0', '1', '2', '3', '4', '5', '6', '7', '8', '9'][d as int]
}

/// The decimal digits of `n`, most significant first, without leading zeros.
pub open spec fn decimal(n: nat) -> Seq<char>
    decreases n,
{
    if n < 10 {
        seq![digit_char(n)]
    } else {
        decimal(n / 10).push(digit_char(n % 10))
    }
}

/// Relies on `u64`'s `Display` (through `ToString::to_string`): an unsigned
/// integer is written as its decimal digits.
#[verifier::external_body]
pub(crate) fn decimal_text(n: u64) -> (r: String)
    ensures
        r@ == decimal(n as nat),
{
    n.to_string()
}

/// The title shown when a notification names none.
pub open spec fn title_text(title: Option<String>) -> Seq<char> {
    match title {
        Some(t) => t@,
        None => "Erinnerung"@,
    }
}

/// One `prefix` argument carrying `value`, if there is a value.
pub open spec fn option_arg(prefix: Seq<char>, value: Option<String>) -> Seq<Seq<char>> {
    match value {
        Some(v) => seq![prefix + v@],
        None => Seq::empty(),
    }
}

/// The texts of a list of arguments.
pub open spec fn arg_texts(args: Seq<String>) -> Seq<Seq<char>> {
    args.map_values(|a: String| a@)
}

/// The `notify-send` arguments for a notification: title and message, then
/// one option for each field that is set, and `--transient` when asked for.
pub open spec fn notify_args(c: NotificationConfig) -> Seq<Seq<char>> {
    seq![title_text(c.title), c.message@] + option_arg("--urgency="@, c.urgency) + match c.expire_time {
        Some(e) => seq!["--expire-time="@ + decimal(e as nat)],
        None => Seq::empty(),
    } + option_arg("--app-name="@, c.app_name) + option_arg("--icon="@, c.icon) + option_arg(
        "--category="@,
        c.category,
    ) + if c.transient == Some(true) {
        seq!["--transient"@]
    } else {
        Seq::empty()
    }
}

fn push_arg(args: &mut Vec<String>, arg: String)
    ensures
        arg_texts(final(args)@) == arg_texts(old(args)@).push(arg@),
{
    let ghost before = args@;
    args.push(arg);
    assert(arg_texts(args@) =~= arg_texts(before).push(arg@));
}

fn push_option(args: &mut Vec<String>, prefix: &str, value: &Option<String>)
    ensures
        arg_texts(final(args)@) == arg_texts(old(args)@) + option_arg(prefix@, *value),
{
    let ghost before = args@;
    match value {
        Some(v) => {
            push_arg(args, String::from_str(prefix).concat(v.as_str()));
            assert(arg_texts(args@) =~= arg_texts(before) + option_arg(prefix@, *value));
        },
        None => {
            assert(arg_texts(args@) =~= arg_texts(before) + option_arg(prefix@, *value));
        },
    }
}

/// The arguments with which `notify-send` shows `config`.
pub fn notify_send_args(config: &NotificationConfig) -> (r: Vec<String>)
    ensures
        arg_texts(r@) == notify_args(*config),
{
    let mut args: Vec<String> = Vec::new();
    let title = match &config.title {
        Some(t) => t.clone(),
        None => String::from_str("Erinnerung"),
    };
    push_arg(&mut args, title);
    push_arg(&mut args, config.message.clone());
    assert(arg_texts(args@) =~= seq![title_text(config.title), config.message@]);
    push_option(&mut args, "--urgency=", &config.urgency);
    let ghost before = args@;
    match config.expire_time {
        Some(e) => {
            push_arg(&mut args, String::from_str("--expire-time=").concat(decimal_text(e as u64).as_str()));
        },
        None => {},
    }
    assert(arg_texts(args@) =~= arg_texts(before) + match config.expire_time {
        Some(e) => seq!["--expire-time="@ + decimal(e as nat)],
        None => Seq::<Seq<char>>::empty(),
    });
    push_option(&mut args, "--app-name=", &config.app_name);
    push_option(&mut args, "--icon=", &config.icon);
    push_option(&mut args, "--category=", &config.category);
    let ghost before = args@;
    if config.transient == Some(true) {
        push_arg(&mut args, String::from_str("--transient"));
    }
    assert(arg_texts(args@) =~= arg_texts(before) + if config.transient == Some(true) {
        seq!["--transient"@]
    } else {
        Seq::<Seq<char>>::empty()
    });
    args
}

impl AdhocNotification {
    /// The notification for an ad-hoc request. It is shown as it is, whatever
    /// the activity signal says: nothing here consults it.
    pub fn into_config(self) -> (r: NotificationConfig)
        ensures
            r.title == self.title,
            r.message == self.message,
            r.interval@ == Seq::<char>::empty(),
            r.urgency == self.urgency,
            r.expire_time == self.expire_time,
            r.app_name == self.app_name,
            r.icon == self.icon,
            r.category == self.category,
            r.transient == self.transient,
    {
        NotificationConfig {
            title: self.title,
            message: self.message,
            interval: String::new(),
            urgency: self.urgency,
            expire_time: self.expire_time,
            app_name: self.app_name,
            icon: self.icon,
            category: self.category,
            transient: self.transient,
        }
    }
}

} // verus!
