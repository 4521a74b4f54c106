//! Permissions on an account.
use crate::strings::push_str;
use vstd::prelude::*;

verus! {

/// Set of ternary flags for account permissions
///
/// - None = not set (default disallowed)
/// - Some(true) = allowed
/// - Some(false) = disallowed
#[derive(Debug, Default, Clone, Copy, PartialEq, Eq, Structural)]
pub struct AccountPermissions {
    /// Know about the account's existence.
    pub list: Option<bool>,
    /// Know the account's holdings and activity.
    pub view: Option<bool>,
    /// Trade on the account, any position effect.
    pub trade: Option<bool>,
    /// Trade on the account only if reducing or closing.
    pub reduce_or_close: Option<bool>,
    /// Set limits on the account.
    pub set_limits: Option<bool>,
}

/// The permissions by name, in the order they are shown.
pub open spec fn permission_entries(p: AccountPermissions) -> Seq<(Seq<char>, Option<bool>)> {
    seq![
        ("list"@, p.list),
        ("view"@, p.view),
        ("trade"@, p.trade),
        ("reduce_or_close"@, p.reduce_or_close),
        ("set_limits"@, p.set_limits),
    ]
}

/// The names of the entries whose flag is set to `value`, in order.
pub open spec fn names_set_to(entries: Seq<(Seq<char>, Option<bool>)>, value: bool) -> Seq<
    Seq<char>,
>
    decreases entries.len(),
{
    if entries.len() == 0 {
        Seq::empty()
    } else {
        let rest = names_set_to(entries.drop_last(), value);
        if entries.last().1 == Some(value) {
            rest.push(entries.last().0)
        } else {
            rest
        }
    }
}

/// Names joined by ", ".
pub open spec fn join_comma(names: Seq<Seq<char>>) -> Seq<char>
    decreases names.len(),
{
    if names.len() == 0 {
        Seq::empty()
    } else if names.len() == 1 {
        names[0]
    } else {
        join_comma(names.drop_last()) + ", "@ + names.last()
    }
}

/// The text `display` writes: the allowed names, then the denied ones.
pub open spec fn permissions_text(p: AccountPermissions) -> Seq<char> {
    "allow("@ + join_comma(names_set_to(permission_entries(p), true)) + ") deny("@ + join_comma(
        names_set_to(permission_entries(p), false),
    ) + ")"@
}

/// The first flag where it is set, else the second.
pub open spec fn or_flag(a: Option<bool>, b: Option<bool>) -> Option<bool> {
    match a {
        Some(v) => Some(v),
        None => b,
    }
}

/// The first flag where it is set, else the second.
fn flag_or(a: Option<bool>, b: Option<bool>) -> (r: Option<bool>)
    ensures
        r == or_flag(a, b),
{
    match a {
        Some(v) => Some(v),
        None => b,
    }
}

/// Whether a flag allows: only `Some(true)` does.
pub open spec fn allows(a: Option<bool>) -> bool {
    a == Some(true)
}

/// The views of a list of names.
pub open spec fn name_views(v: Seq<&str>) -> Seq<Seq<char>> {
    v.map_values(|s: &str| s@)
}

/// Adds `name` to the list its flag puts it on.
fn sift(
    flag: Option<bool>,
    name: &'static str,
    allowed: &mut Vec<&'static str>,
    denied: &mut Vec<&'static str>,
)
    ensures
        name_views(final(allowed)@) == (if flag == Some(true) {
            name_views(old(allowed)@).push(name@)
        } else {
            name_views(old(allowed)@)
        }),
        name_views(final(denied)@) == (if flag == Some(false) {
            name_views(old(denied)@).push(name@)
        } else {
            name_views(old(denied)@)
        }),
{
    match flag {
        Some(true) => {
            allowed.push(name);
            assert(name_views(allowed@) =~= name_views(old(allowed)@).push(name@));
        },
        Some(false) => {
            denied.push(name);
            assert(name_views(denied@) =~= name_views(old(denied)@).push(name@));
        },
        None => {},
    }
}

/// Names joined by ", ".
fn join_names(names: &Vec<&'static str>) -> (r: String)
    ensures
        r@ == join_comma(name_views(names@)),
{
    let mut out = String::new();
    let mut i: usize = 0;
    while i < names.len()
        invariant
            i <= names@.len(),
            out@ == join_comma(name_views(names@).take(i as int)),
        decreases names.len() - i,
    {
        proof {
            let views = name_views(names@);
            assert(views.take(i + 1).drop_last() =~= views.take(i as int));
            if i == 0 {
                assert(views.take(1) =~= seq![views[0]]);
            }
        }
        if i > 0 {
            push_str(&mut out, ", ");
        }
        push_str(&mut out, names[i]);
        proof {
            if i == 0 {
                assert(out@ =~= Seq::<char>::empty() + names@[0]@);
            }
        }
        i += 1;
    }
    proof {
        assert(name_views(names@).take(names@.len() as int) =~= name_views(names@));
    }
    out
}

impl AccountPermissions {
    pub fn all() -> (r: Self)
        ensures
            r == (AccountPermissions {
                list: Some(true),
                view: Some(true),
                trade: Some(true),
                reduce_or_close: Some(true),
                set_limits: Some(true),
            }),
    {
        AccountPermissions {
            list: Some(true),
            view: Some(true),
            trade: Some(true),
            reduce_or_close: Some(true),
            set_limits: Some(true),
        }
    }

    pub fn none() -> (r: Self)
        ensures
            r == (AccountPermissions {
                list: Some(false),
                view: Some(false),
                trade: Some(false),
                reduce_or_close: Some(false),
                set_limits: Some(false),
            }),
    {
        AccountPermissions {
            list: Some(false),
            view: Some(false),
            trade: Some(false),
            reduce_or_close: Some(false),
            set_limits: Some(false),
        }
    }

    /// Truth table for applying default permissions;
    ///
    /// self, default => result
    /// T, * => T
    /// F, * => F
    /// -, d => d
    pub fn with_default(&self, default: &Self) -> (r: Self)
        ensures
            r == (AccountPermissions {
                list: or_flag(self.list, default.list),
                view: or_flag(self.view, default.view),
                trade: or_flag(self.trade, default.trade),
                reduce_or_close: or_flag(self.reduce_or_close, default.reduce_or_close),
                set_limits: or_flag(self.set_limits, default.set_limits),
            }),
    {
        AccountPermissions {
            list: flag_or(self.list, default.list),
            view: flag_or(self.view, default.view),
            trade: flag_or(self.trade, default.trade),
            reduce_or_close: flag_or(self.reduce_or_close, default.reduce_or_close),
            set_limits: flag_or(self.set_limits, default.set_limits),
        }
    }

    pub fn list(&self) -> (r: bool)
        ensures
            r == allows(self.list),
    {
        self.list.unwrap_or(false)
    }

    pub fn view(&self) -> (r: bool)
        ensures
            r == allows(self.view),
    {
        self.view.unwrap_or(false)
    }

    pub fn trade(&self) -> (r: bool)
        ensures
            r == allows(self.trade),
    {
        self.trade.unwrap_or(false)
    }

    pub fn reduce_or_close(&self) -> (r: bool)
        ensures
            r == allows(self.reduce_or_close),
    {
        self.reduce_or_close.unwrap_or(false)
    }

    pub fn set_limits(&self) -> (r: bool)
        ensures
            r == allows(self.set_limits),
    {
        self.set_limits.unwrap_or(false)
    }

    /// "allow(NAMES) deny(NAMES)", each list in the order list, view,
    /// trade, reduce_or_close, set_limits.
    pub fn display(&self) -> (r: String)
        ensures
            r@ == permissions_text(*self),
    {
        let mut allowed: Vec<&'static str> = Vec::new();
        let mut denied: Vec<&'static str> = Vec::new();
        let ghost entries = permission_entries(*self);
        proof {
            assert(name_views(allowed@) =~= names_set_to(entries.take(0), true));
            assert(name_views(denied@) =~= names_set_to(entries.take(0), false));
        }
        sift(self.list, "list", &mut allowed, &mut denied);
        proof {
            assert(entries.take(1).drop_last() =~= entries.take(0));
            assert(entries.take(1).last() == entries[0]);
            assert(name_views(allowed@) == names_set_to(entries.take(1), true));
            assert(name_views(denied@) == names_set_to(entries.take(1), false));
        }
        sift(self.view, "view", &mut allowed, &mut denied);
        proof {
            assert(entries.take(2).drop_last() =~= entries.take(1));
            assert(entries.take(2).last() == entries[1]);
            assert(name_views(allowed@) == names_set_to(entries.take(2), true));
            assert(name_views(denied@) == names_set_to(entries.take(2), false));
        }
        sift(self.trade, "trade", &mut allowed, &mut denied);
        proof {
            assert(entries.take(3).drop_last() =~= entries.take(2));
            assert(entries.take(3).last() == entries[2]);
            assert(name_views(allowed@) == names_set_to(entries.take(3), true));
            assert(name_views(denied@) == names_set_to(entries.take(3), false));
        }
        sift(self.reduce_or_close, "reduce_or_close", &mut allowed, &mut denied);
        proof {
            assert(entries.take(4).drop_last() =~= entries.take(3));
            assert(entries.take(4).last() == entries[3]);
            assert(name_views(allowed@) == names_set_to(entries.take(4), true));
            assert(name_views(denied@) == names_set_to(entries.take(4), false));
        }
        sift(self.set_limits, "set_limits", &mut allowed, &mut denied);
        proof {
            assert(entries.take(5).drop_last() =~= entries.take(4));
            assert(entries.take(5).last() == entries[4]);
            assert(name_views(allowed@) == names_set_to(entries.take(5), true));
            assert(name_views(denied@) == names_set_to(entries.take(5), false));
            assert(entries.take(5) =~= entries);
            assert(name_views(allowed@) == names_set_to(entries, true));
            assert(name_views(denied@) == names_set_to(entries, false));
        }
        let mut out = String::from_str("allow(");
        let a = join_names(&allowed);
        push_str(&mut out, a.as_str());
        push_str(&mut out, ") deny(");
        let d = join_names(&denied);
        push_str(&mut out, d.as_str());
        push_str(&mut out, ")");
        out
    }
}

/// A permission set to allow or deny stays so whatever the default; an
/// unset one takes the default's.
pub proof fn law_with_default_keeps_set_flags(p: AccountPermissions, d: AccountPermissions)
    ensures
        p.list is Some ==> or_flag(p.list, d.list) == p.list,
        p.list is None ==> or_flag(p.list, d.list) == d.list,
        p.trade is Some ==> or_flag(p.trade, d.trade) == p.trade,
        p.trade is None ==> or_flag(p.trade, d.trade) == d.trade,
{
}

/// Applying a default twice is the same as applying it once.
pub proof fn law_with_default_idempotent(p: AccountPermissions, d: AccountPermissions)
    ensures
        or_flag(or_flag(p.list, d.list), d.list) == or_flag(p.list, d.list),
        or_flag(or_flag(p.view, d.view), d.view) == or_flag(p.view, d.view),
        or_flag(or_flag(p.trade, d.trade), d.trade) == or_flag(p.trade, d.trade),
        or_flag(or_flag(p.reduce_or_close, d.reduce_or_close), d.reduce_or_close) == or_flag(
            p.reduce_or_close,
            d.reduce_or_close,
        ),
        or_flag(or_flag(p.set_limits, d.set_limits), d.set_limits) == or_flag(
            p.set_limits,
            d.set_limits,
        ),
{
}

} // verus!
