use vstd::prelude::*;
use crate::command::{command_config, Command, CommandView};
use crate::desktop::{desktop_config, Desktop, DesktopView};
use crate::email::{email_config, Email, EmailView};
use crate::env::{env_value, Environment};
use crate::matrix::{matrix_config, Matrix, MatrixView};
use crate::slack::{slack_config, Slack, SlackView};
use crate::telegram::{telegram_config, Telegram, TelegramView};
use crate::web_url::parsed_url;
use crate::webhook::{webhook_config, Webhook, WebhookView};

verus! {

/// One configured channel, ready to send.
pub enum Notifier {
    Command(Command),
    Desktop(Desktop),
    Email(Email),
    Matrix(Matrix),
    Slack(Slack),
    Telegram(Telegram),
    Webhook(Webhook),
}

/// The value of a `Notifier`.
pub enum NotifierView {
    Command(CommandView),
    Desktop(DesktopView),
    Email(EmailView),
    Matrix(MatrixView),
    Slack(SlackView),
    Telegram(TelegramView),
    Webhook(WebhookView),
}

impl View for Notifier {
    type V = NotifierView;

    open spec fn view(&self) -> NotifierView {
        match self {
            Notifier::Command(c) => NotifierView::Command(c@),
            Notifier::Desktop(c) => NotifierView::Desktop(c@),
            Notifier::Email(c) => NotifierView::Email(c@),
            Notifier::Matrix(c) => NotifierView::Matrix(c@),
            Notifier::Slack(c) => NotifierView::Slack(c@),
            Notifier::Telegram(c) => NotifierView::Telegram(c@),
            Notifier::Webhook(c) => NotifierView::Webhook(c@),
        }
    }
}

/// The values of a list of notifiers.
pub open spec fn notifier_views(v: Seq<Notifier>) -> Seq<NotifierView> {
    v.map_values(|n: Notifier| n@)
}

/// The one-element sequence of a present value; empty for an absent one.
pub open spec fn present<T>(o: Option<T>) -> Seq<T> {
    match o {
        Some(x) => seq![x],
        None => seq![],
    }
}

/// Every channel that an environment configures, in the fixed order Command,
/// Desktop, Email, Matrix, Slack, Telegram, Webhook.
pub open spec fn discovered(env: Seq<(Seq<char>, Seq<char>)>) -> Seq<NotifierView> {
    present(
        match command_config(env) {
            Some(c) => Some(NotifierView::Command(c)),
            None => None,
        },
    ) + present(
        match desktop_config(env) {
            Some(c) => Some(NotifierView::Desktop(c)),
            None => None,
        },
    ) + present(
        match email_config(env) {
            Some(c) => Some(NotifierView::Email(c)),
            None => None,
        },
    ) + present(
        match matrix_config(env) {
            Some(c) => Some(NotifierView::Matrix(c)),
            None => None,
        },
    ) + present(
        match slack_config(env) {
            Some(c) => Some(NotifierView::Slack(c)),
            None => None,
        },
    ) + present(
        match telegram_config(env) {
            Some(c) => Some(NotifierView::Telegram(c)),
            None => None,
        },
    ) + present(
        match webhook_config(env) {
            Some(c) => Some(NotifierView::Webhook(c)),
            None => None,
        },
    )
}

/// The value of a notifier that may be absent.
pub open spec fn optional_view(n: Option<Notifier>) -> Option<NotifierView> {
    match n {
        Some(x) => Some(x@),
        None => None,
    }
}

pub(crate) fn push_present(r: &mut Vec<Notifier>, n: Option<Notifier>)
    ensures
        notifier_views(final(r)@) == notifier_views(old(r)@) + present(optional_view(n)),
{
    let ghost before = notifier_views(r@);
    match n {
        Some(x) => {
            r.push(x);
            assert(notifier_views(r@) =~= before + present(optional_view(n)));
        },
        None => {
            assert(notifier_views(r@) =~= before + present(optional_view(n)));
        },
    }
}

impl Notifier {
    /// Every channel that `env` configures, in the order Command, Desktop,
    /// Email, Matrix, Slack, Telegram, Webhook. A channel whose variables are
    /// missing or unreadable is left out.
    pub fn from_env(env: &Environment) -> (r: Vec<Notifier>)
        ensures
            notifier_views(r@) == discovered(env@),
    {
        let mut r: Vec<Notifier> = Vec::new();
        assert(notifier_views(r@) =~= Seq::<NotifierView>::empty());
        let command = match Command::from_env(env) {
            Some(c) => Some(Notifier::Command(c)),
            None => None,
        };
        push_present(&mut r, command);
        let desktop = match Desktop::from_env(env) {
            Some(c) => Some(Notifier::Desktop(c)),
            None => None,
        };
        push_present(&mut r, desktop);
        let email = match Email::from_env(env) {
            Some(c) => Some(Notifier::Email(c)),
            None => None,
        };
        push_present(&mut r, email);
        let matrix = match Matrix::from_env(env) {
            Some(c) => Some(Notifier::Matrix(c)),
            None => None,
        };
        push_present(&mut r, matrix);
        let slack = match Slack::from_env(env) {
            Some(c) => Some(Notifier::Slack(c)),
            None => None,
        };
        push_present(&mut r, slack);
        let telegram = match Telegram::from_env(env) {
            Some(c) => Some(Notifier::Telegram(c)),
            None => None,
        };
        push_present(&mut r, telegram);
        let webhook = match Webhook::from_env(env) {
            Some(c) => Some(Notifier::Webhook(c)),
            None => None,
        };
        push_present(&mut r, webhook);
        assert(Seq::<NotifierView>::empty() + present(optional_view(command)) =~= present(optional_view(command)));
        r
    }
}

impl From<Command> for Notifier {
    fn from(command: Command) -> Notifier {
        Notifier::Command(command)
    }
}

impl vstd::std_specs::convert::FromSpecImpl<Command> for Notifier {
    open spec fn obeys_from_spec() -> bool {
        true
    }

    open spec fn from_spec(command: Command) -> Notifier {
        Notifier::Command(command)
    }
}

impl From<Desktop> for Notifier {
    fn from(desktop: Desktop) -> Notifier {
        Notifier::Desktop(desktop)
    }
}

impl vstd::std_specs::convert::FromSpecImpl<Desktop> for Notifier {
    open spec fn obeys_from_spec() -> bool {
        true
    }

    open spec fn from_spec(desktop: Desktop) -> Notifier {
        Notifier::Desktop(desktop)
    }
}

impl From<Email> for Notifier {
    fn from(email: Email) -> Notifier {
        Notifier::Email(email)
    }
}

impl vstd::std_specs::convert::FromSpecImpl<Email> for Notifier {
    open spec fn obeys_from_spec() -> bool {
        true
    }

    open spec fn from_spec(email: Email) -> Notifier {
        Notifier::Email(email)
    }
}

impl From<Matrix> for Notifier {
    fn from(matrix: Matrix) -> Notifier {
        Notifier::Matrix(matrix)
    }
}

impl vstd::std_specs::convert::FromSpecImpl<Matrix> for Notifier {
    open spec fn obeys_from_spec() -> bool {
        true
    }

    open spec fn from_spec(matrix: Matrix) -> Notifier {
        Notifier::Matrix(matrix)
    }
}

impl From<Slack> for Notifier {
    fn from(slack: Slack) -> Notifier {
        Notifier::Slack(slack)
    }
}

impl vstd::std_specs::convert::FromSpecImpl<Slack> for Notifier {
    open spec fn obeys_from_spec() -> bool {
        true
    }

    open spec fn from_spec(slack: Slack) -> Notifier {
        Notifier::Slack(slack)
    }
}

impl From<Telegram> for Notifier {
    fn from(telegram: Telegram) -> Notifier {
        Notifier::Telegram(telegram)
    }
}

impl vstd::std_specs::convert::FromSpecImpl<Telegram> for Notifier {
    open spec fn obeys_from_spec() -> bool {
        true
    }

    open spec fn from_spec(telegram: Telegram) -> Notifier {
        Notifier::Telegram(telegram)
    }
}

impl From<Webhook> for Notifier {
    fn from(webhook: Webhook) -> Notifier {
        Notifier::Webhook(webhook)
    }
}

impl vstd::std_specs::convert::FromSpecImpl<Webhook> for Notifier {
    open spec fn obeys_from_spec() -> bool {
        true
    }

    open spec fn from_spec(webhook: Webhook) -> Notifier {
        Notifier::Webhook(webhook)
    }
}

/// The place of a channel in the order of discovery.
pub open spec fn rank(n: NotifierView) -> int {
    match n {
        NotifierView::Command(_) => 0,
        NotifierView::Desktop(_) => 1,
        NotifierView::Email(_) => 2,
        NotifierView::Matrix(_) => 3,
        NotifierView::Slack(_) => 4,
        NotifierView::Telegram(_) => 5,
        NotifierView::Webhook(_) => 6,
    }
}

/// Whether a list holds a channel of the given place.
pub open spec fn lists(s: Seq<NotifierView>, r: int) -> bool {
    exists|i: int| 0 <= i < s.len() && rank(#[trigger] s[i]) == r
}

/// A list in strictly increasing order of place, every place below `k`.
pub open spec fn ordered_below(s: Seq<NotifierView>, k: int) -> bool {
    &&& forall|i: int| 0 <= i < s.len() ==> rank(#[trigger] s[i]) < k
    &&& forall|i: int, j: int| 0 <= i < j < s.len() ==> rank(#[trigger] s[i]) < rank(#[trigger] s[j])
}

proof fn lemma_append_entry(s: Seq<NotifierView>, p: Seq<NotifierView>, k: int)
    requires
        ordered_below(s, k),
        p.len() <= 1,
        forall|i: int| 0 <= i < p.len() ==> rank(#[trigger] p[i]) == k,
    ensures
        ordered_below(s + p, k + 1),
        forall|r: int| lists(s + p, r) <==> (lists(s, r) || (p.len() == 1 && r == k)),
{
    let t = s + p;
    assert forall|i: int, j: int| 0 <= i < j < t.len() implies rank(#[trigger] t[i]) < rank(
        #[trigger] t[j],
    ) by {
        if j >= s.len() {
            assert(t[j] == p[j - s.len()]);
        }
    }
    assert forall|r: int| lists(t, r) <==> (lists(s, r) || (p.len() == 1 && r == k)) by {
        if lists(t, r) {
            let i = choose|i: int| 0 <= i < t.len() && rank(#[trigger] t[i]) == r;
            if i < s.len() {
                assert(t[i] == s[i]);
            } else {
                assert(t[i] == p[i - s.len()]);
            }
        }
        if lists(s, r) {
            let i = choose|i: int| 0 <= i < s.len() && rank(#[trigger] s[i]) == r;
            assert(t[i] == s[i]);
        }
        if p.len() == 1 && r == k {
            assert(t[s.len() as int] == p[0]);
        }
    }
}

/// Discovery lists the configured channels in the fixed order Command,
/// Desktop, Email, Matrix, Slack, Telegram, Webhook, each at most once, and
/// lists a channel exactly when the environment configures it.
pub proof fn lemma_discovery(env: Seq<(Seq<char>, Seq<char>)>)
    ensures
        ordered_below(discovered(env), 7),
        lists(discovered(env), 0) <==> command_config(env) is Some,
        lists(discovered(env), 1) <==> desktop_config(env) is Some,
        lists(discovered(env), 2) <==> email_config(env) is Some,
        lists(discovered(env), 3) <==> matrix_config(env) is Some,
        lists(discovered(env), 4) <==> slack_config(env) is Some,
        lists(discovered(env), 5) <==> telegram_config(env) is Some,
        lists(discovered(env), 6) <==> webhook_config(env) is Some,
{
    let p0 = present(
        match command_config(env) {
            Some(c) => Some(NotifierView::Command(c)),
            None => None,
        },
    );
    let p1 = present(
        match desktop_config(env) {
            Some(c) => Some(NotifierView::Desktop(c)),
            None => None,
        },
    );
    let p2 = present(
        match email_config(env) {
            Some(c) => Some(NotifierView::Email(c)),
            None => None,
        },
    );
    let p3 = present(
        match matrix_config(env) {
            Some(c) => Some(NotifierView::Matrix(c)),
            None => None,
        },
    );
    let p4 = present(
        match slack_config(env) {
            Some(c) => Some(NotifierView::Slack(c)),
            None => None,
        },
    );
    let p5 = present(
        match telegram_config(env) {
            Some(c) => Some(NotifierView::Telegram(c)),
            None => None,
        },
    );
    let p6 = present(
        match webhook_config(env) {
            Some(c) => Some(NotifierView::Webhook(c)),
            None => None,
        },
    );
    let e = Seq::<NotifierView>::empty();
    assert(e + p0 =~= p0);
    assert(!lists(e, 0) && !lists(e, 1) && !lists(e, 2) && !lists(e, 3));
    assert(!lists(e, 4) && !lists(e, 5) && !lists(e, 6));
    lemma_append_entry(e, p0, 0);
    lemma_append_entry(p0, p1, 1);
    lemma_append_entry(p0 + p1, p2, 2);
    lemma_append_entry(p0 + p1 + p2, p3, 3);
    lemma_append_entry(p0 + p1 + p2 + p3, p4, 4);
    lemma_append_entry(p0 + p1 + p2 + p3 + p4, p5, 5);
    lemma_append_entry(p0 + p1 + p2 + p3 + p4 + p5, p6, 6);
    assert(discovered(env) == p0 + p1 + p2 + p3 + p4 + p5 + p6);
}

/// Matrix is discovered only with all three of its variables: a homeserver
/// that is a URL, a room id and an access token. Without any one of them the
/// list holds no Matrix channel.
pub proof fn lemma_matrix_all_or_nothing(env: Seq<(Seq<char>, Seq<char>)>)
    ensures
        lists(discovered(env), 3) <==> {
            &&& env_value(env, "MATRIX_HOMESERVER"@) matches Some(h) && parsed_url(h) is Some
            &&& env_value(env, "MATRIX_ROOM_ID"@) is Some
            &&& env_value(env, "MATRIX_ACCESS_TOKEN"@) is Some
        },
{
    lemma_discovery(env);
}

/// With a program, a Slack hook that is a URL and a webhook URL set, the
/// Command, Slack and Webhook channels are all listed, in that order.
pub proof fn lemma_command_slack_webhook_order(env: Seq<(Seq<char>, Seq<char>)>)
    requires
        env_value(env, "PLING_COMMAND_PROGRAM"@) is Some,
        env_value(env, "SLACK_HOOK"@) matches Some(h) && parsed_url(h) is Some,
        env_value(env, "WEBHOOK_URL"@) matches Some(u) && parsed_url(u) is Some,
    ensures
        exists|i: int, j: int, k: int|
            0 <= i < j < k < discovered(env).len() && discovered(env)[i] is Command
                && discovered(env)[j] is Slack && discovered(env)[k] is Webhook,
{
    lemma_discovery(env);
    let d = discovered(env);
    let i = choose|i: int| 0 <= i < d.len() && rank(#[trigger] d[i]) == 0;
    let j = choose|j: int| 0 <= j < d.len() && rank(#[trigger] d[j]) == 4;
    let k = choose|k: int| 0 <= k < d.len() && rank(#[trigger] d[k]) == 6;
    if j <= i {
        if j < i {
            assert(rank(d[j]) < rank(d[i]));
        }
    }
    if k <= j {
        if k < j {
            assert(rank(d[k]) < rank(d[j]));
        }
    }
    assert(0 <= i < j < k < d.len() && d[i] is Command && d[j] is Slack && d[k] is Webhook);
}

} // verus!
