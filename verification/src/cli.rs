//! The command line the engine spawns the settings window with (one
//! contract for both sides): which pane to open on, and whether to run the
//! manual update check on arrival. The flags with no Linux behaviour are
//! refused with a readable error rather than ignored; any other argument
//! is ignored.

use crate::settings_pane::{
    pane_from_raw, SettingsPane, CHECK_NOW_FLAG, CHECK_UPDATES_FLAG, PANE_FLAG, PREWARM_FLAG,
};
use crate::text::str_eq;
use vstd::prelude::*;

verus! {

#[derive(Clone, Copy, Debug, PartialEq, Eq, Structural)]
pub struct LaunchOptions {
    /// `--pane <raw>`; an unknown raw value is ignored (the stored pane wins).
    pub pane: Option<SettingsPane>,
    /// `--check-now`: the panel menu's update check.
    pub check_now: bool,
}

impl Default for LaunchOptions {
    fn default() -> (options: Self)
        ensures
            options.pane is None,
            !options.check_now,
    {
        LaunchOptions { pane: None, check_now: false }
    }
}

/// A flag this platform has no behaviour for.
#[derive(Clone, Debug, PartialEq, Eq)]
pub struct UnsupportedFlag(pub String);

impl UnsupportedFlag {
    /// The error as the window reports it, naming the refused flag.
    pub fn message(&self) -> (text: String)
        ensures
            text@ == "`"@ + self.0@ + "` is not supported on Linux; only `--pane <pane>` and `--check-now` are accepted"@,
    {
        let text = String::from_str("`");
        let text = text.concat(self.0.as_str());
        text.concat("` is not supported on Linux; only `--pane <pane>` and `--check-now` are accepted")
    }
}

/// The options the arguments from position `i` on leave, starting from
/// `pane` and `check_now`, or the first refused flag.
pub open spec fn parse_from(
    arguments: Seq<Seq<char>>,
    i: int,
    pane: Option<SettingsPane>,
    check_now: bool,
) -> Result<(Option<SettingsPane>, bool), Seq<char>>
    decreases arguments.len() + 1 - i,
{
    if i < 0 || i >= arguments.len() {
        Ok((pane, check_now))
    } else if arguments[i] == PANE_FLAG@ {
        let next = if i + 1 < arguments.len() {
            pane_from_raw(arguments[i + 1])
        } else {
            None
        };
        parse_from(arguments, i + 2, next, check_now)
    } else if arguments[i] == CHECK_NOW_FLAG@ {
        parse_from(arguments, i + 1, pane, true)
    } else if arguments[i] == CHECK_UPDATES_FLAG@ || arguments[i] == PREWARM_FLAG@ {
        Err(arguments[i])
    } else {
        parse_from(arguments, i + 1, pane, check_now)
    }
}

pub open spec fn views_of(arguments: Seq<String>) -> Seq<Seq<char>> {
    arguments.map_values(|a: String| a@)
}

/// What the whole command line asks for.
pub open spec fn parse_spec(arguments: Seq<Seq<char>>) -> Result<
    (Option<SettingsPane>, bool),
    Seq<char>,
> {
    parse_from(arguments, 0, None, false)
}

impl LaunchOptions {
    /// Reads the arguments in order: `--pane` takes the next argument as
    /// the pane (a later `--pane` wins; a missing or unknown value leaves
    /// no pane), `--check-now` asks for the check, `--check-updates` and
    /// `--prewarm` are refused by name, anything else is ignored.
    pub fn parse(arguments: Vec<String>) -> (result: Result<Self, UnsupportedFlag>)
        ensures
            match parse_spec(views_of(arguments@)) {
                Ok((pane, check_now)) => result matches Ok(options) && options.pane == pane
                    && options.check_now == check_now,
                Err(flag) => result matches Err(error) && error.0@ == flag,
            },
    {
        let ghost args = views_of(arguments@);
        let mut pane: Option<SettingsPane> = None;
        let mut check_now = false;
        let mut i: usize = 0;
        while i < arguments.len()
            invariant
                args == views_of(arguments@),
                i <= arguments@.len(),
                parse_spec(args) == parse_from(args, i as int, pane, check_now),
            decreases arguments@.len() - i,
        {
            let argument = arguments[i].as_str();
            proof {
                assert(args[i as int] == argument@);
            }
            let ghost old_pane = pane;
            let ghost old_i = i;
            if str_eq(argument, PANE_FLAG) {
                assert(args[i as int] == PANE_FLAG@);
                pane = if i + 1 < arguments.len() {
                    proof {
                        assert(args[i + 1] == arguments@[i + 1]@);
                    }
                    SettingsPane::from_raw(arguments[i + 1].as_str())
                } else {
                    None
                };
                if i + 1 < arguments.len() {
                    i = i + 2;
                } else {
                    i = arguments.len();
                }
                assert(parse_from(args, old_i as int, old_pane, check_now) == parse_from(args, old_i + 2, pane, check_now));
                assert(parse_from(args, old_i + 2, pane, check_now) == parse_from(args, i as int, pane, check_now));
            } else if str_eq(argument, CHECK_NOW_FLAG) {
                check_now = true;
                i = i + 1;
            } else if str_eq(argument, CHECK_UPDATES_FLAG) || str_eq(argument, PREWARM_FLAG) {
                let flag = arguments[i].clone();
                return Err(UnsupportedFlag(flag));
            } else {
                i = i + 1;
            }
        }
        Ok(LaunchOptions { pane, check_now })
    }
}

} // verus!
