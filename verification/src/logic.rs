//! The decisions of the bootstrap: whether the setup has been done already
//! (an administrator other than the built-in one holds a passkey), and the
//! flow that creates the first administrator and the OAuth2 application.
use vstd::prelude::*;

use crate::conf::{BootstrapConfig, KanidmConfig};
use crate::error::{rendered, signals_conflict, wraps, AppError, AppResult};

verus! {

/// Whether either attribute is present with at least one value.
pub fn any_has_elements(set_a: Option<&Vec<String>>, set_b: Option<&Vec<String>>) -> (r: bool)
    ensures
        r == ((set_a matches Some(v) && v.len() > 0) || (set_b matches Some(v) && v.len() > 0)),
{
    match (set_a, set_b) {
        (Some(v), _) if v.len() > 0 => true,
        (_, Some(v)) if v.len() > 0 => true,
        _ => false,
    }
}

/// The name of the administrator account that the server creates itself.
pub open spec fn builtin_admin_name() -> Seq<char> {
    "idm_admin"@
}

/// Whether a member differs from the given account name.
pub open spec fn differs_from(default_id: Seq<char>) -> spec_fn(Seq<char>) -> bool {
    |m: Seq<char>| m != default_id
}

/// The administrators other than `default_id`, in their order.
pub fn filter_new_admins(members: &[String], default_id: &str) -> (r: Vec<String>)
    ensures
        r.deep_view() == members.deep_view().filter(differs_from(default_id@)),
{
    let d = String::from_str(default_id);
    let ghost all = members.deep_view();
    let ghost keep = differs_from(default_id@);
    let mut out: Vec<String> = Vec::new();
    let n = members.len();
    let mut i: usize = 0;
    proof {
        reveal(Seq::filter);
        assert(all.take(0) =~= Seq::<Seq<char>>::empty());
        assert(out.deep_view() =~= all.take(0).filter(keep));
    }
    while i < n
        invariant
            n == members.len(),
            all == members.deep_view(),
            keep == differs_from(default_id@),
            d@ == default_id@,
            i <= n,
            out.deep_view() == all.take(i as int).filter(keep),
        decreases n - i,
    {
        let m: &String = &members[i];
        proof {
            reveal(Seq::filter);
            assert(all.take(i + 1).drop_last() =~= all.take(i as int));
            assert(all.take(i + 1).last() == m@);
        }
        if !(*m == d) {
            let ghost before = out.deep_view();
            out.push(m.clone());
            assert(out.deep_view() =~= before.push(m@));
        }
        i = i + 1;
    }
    proof {
        assert(all.take(n as int) =~= all);
    }
    out
}

/// Whether none of the checks found a registration.
pub fn is_all_pending_logic(results: Vec<bool>) -> (r: bool)
    ensures
        r == !results@.contains(true),
{
    let n = results.len();
    let mut i: usize = 0;
    while i < n
        invariant
            n == results.len(),
            i <= n,
            forall|j: int| 0 <= j < i ==> !results@[j],
        decreases n - i,
    {
        if results[i] {
            assert(results@[i as int] == true);
            return false;
        }
        i = i + 1;
    }
    proof {
        if results@.contains(true) {
            let j = choose|j: int| 0 <= j < results@.len() && results@[j] == true;
            assert(!results@[j]);
        }
    }
    true
}


/// The name of the built-in administrator account.
pub fn builtin_admin() -> (r: &'static str)
    ensures
        r@ == builtin_admin_name(),
{
    "idm_admin"
}

/// The name of the group of administrators.
pub fn admin_group() -> (r: &'static str)
    ensures
        r@ == crate::person::admin_group_name(),
{
    "idm_admins"
}

/// Which administrators must be asked whether they registered a passkey:
/// when the group has exactly two members, the ones other than
/// `default_admin`, provided there is any. `None` means that no new
/// administrator is waiting for a registration.
pub fn pending_check_targets(members: &Vec<String>, default_admin: &str) -> (r: Option<Vec<String>>)
    ensures
        ({
            let targets = members.deep_view().filter(differs_from(default_admin@));
            &&& (members.len() == 2 && targets.len() > 0) ==> (r matches Some(t) && t.deep_view()
                == targets)
            &&& !(members.len() == 2 && targets.len() > 0) ==> r is None
        }),
{
    if members.len() == 2 {
        let all = members.as_slice();
        let targets = filter_new_admins(all, default_admin);
        assert(all.deep_view() =~= members.deep_view());
        if targets.len() > 0 {
            Some(targets)
        } else {
            None
        }
    } else {
        None
    }
}

/// Whether the new administrators are all still waiting for a passkey
/// registration, given what asking each of them gave: a failed check stays a
/// failure.
pub fn pending_from_checks(checks: AppResult<Vec<bool>>) -> (r: AppResult<bool>)
    ensures
        checks matches Ok(v) ==> r == Ok::<bool, AppError>(!v@.contains(true)),
        checks matches Err(e) ==> r == Err::<bool, AppError>(e),
{
    match checks {
        Ok(v) => Ok(is_all_pending_logic(v)),
        Err(e) => Err(e),
    }
}

/// What is known after counting the administrators.
#[derive(Debug)]
pub enum AdminCheck {
    /// Whether an administrator holds a passkey is known.
    Settled(AppResult<bool>),
    /// There are at least two administrators: whether the new one is still
    /// waiting for a passkey registration decides.
    NeedsPendingCheck,
}

/// The message reported when the administrators could not be counted.
pub open spec fn count_failure_message(e: AppError) -> Seq<char> {
    "Failed to check admin count: "@ + rendered(e)
}

/// What the count of administrators tells: with at most the built-in one
/// there is no passkey holder; with more, the new one must be asked.
pub fn admin_count_verdict(count: AppResult<usize>) -> (r: AdminCheck)
    ensures
        count matches Err(e) ==> (r matches AdminCheck::Settled(Err(AppError::Other(m))) && m@
            == count_failure_message(e)),
        count matches Ok(c) ==> (c <= 1 ==> r matches AdminCheck::Settled(Ok(false))),
        count matches Ok(c) ==> (c > 1 ==> r is NeedsPendingCheck),
{
    match count {
        Err(e) => {
            let text = String::from_str("Failed to check admin count: ").concat(e.render().as_str());
            AdminCheck::Settled(Err(AppError::Other(text)))
        },
        Ok(c) => if c <= 1 {
            AdminCheck::Settled(Ok(false))
        } else {
            AdminCheck::NeedsPendingCheck
        },
    }
}

/// Whether an administrator holds a passkey, once the pending check has
/// answered: unless it found the new administrators still waiting, one is
/// taken to hold a passkey; a failed check counts as not waiting.
pub fn admin_has_webauthn_after(pending: AppResult<bool>) -> (r: AppResult<bool>)
    ensures
        r == Ok::<bool, AppError>(!(pending matches Ok(true))),
{
    let waiting = match pending {
        Ok(p) => p,
        Err(_) => false,
    };
    Ok(!waiting)
}

/// The answer to "does an administrator hold a passkey?", given the count of
/// administrators and, when it was asked, the pending check.
pub open spec fn admin_verdict(count: AppResult<usize>, pending: AppResult<bool>) -> Option<bool> {
    match count {
        Err(_) => None,
        Ok(c) => if c <= 1 {
            Some(false)
        } else {
            Some(!(pending matches Ok(true)))
        },
    }
}

/// With at most one administrator (the built-in one) nobody holds a
/// passkey yet, whatever the pending check would say.
pub proof fn lemma_single_admin_has_no_passkey(count: AppResult<usize>, pending: AppResult<bool>)
    requires
        count matches Ok(c) && c <= 1,
    ensures
        admin_verdict(count, pending) == Some(false),
{
}

/// With two or more administrators, a passkey holder exists unless the
/// pending check positively found the new ones waiting; a failed check does
/// not block the answer.
pub proof fn lemma_failed_pending_check_counts_as_registered(count: AppResult<usize>, e: AppError)
    requires
        count matches Ok(c) && c > 1,
    ensures
        admin_verdict(count, Err(e)) == Some(true),
{
}

/// The built-in administrator is never among the accounts asked for a
/// passkey registration.
pub proof fn lemma_builtin_admin_never_checked(members: Seq<Seq<char>>, default_admin: Seq<char>)
    ensures
        !members.filter(differs_from(default_admin)).contains(default_admin),
{
    broadcast use vstd::seq_lib::group_filter_ensures;

    let targets = members.filter(differs_from(default_admin));
    if targets.contains(default_admin) {
        let i = choose|i: int| 0 <= i < targets.len() && targets[i] == default_admin;
        assert(differs_from(default_admin)(targets[i]));
    }
}


/// What the bootstrap needs from the two configurations.
#[derive(Debug)]
pub struct FlowPlan {
    pub person: String,
    pub person_display_name: String,
    pub app_name: String,
    pub app_display_name: String,
    pub origin: String,
    pub callback_url: String,
    pub scopes: Vec<String>,
}

/// Where the bootstrap stands. A stage after the creation keeps what
/// creating the OAuth2 application gave, which decides after the setup
/// instructions are saved.
#[derive(Debug)]
pub enum FlowStage {
    CheckingAdmin,
    Creating,
    AddingToGroup { app: AppResult<()> },
    IssuingToken { app: AppResult<()> },
    SavingReadme { app: AppResult<()> },
    ConfiguringApp,
    Finished,
}

/// What the caller reports back after performing an action.
#[derive(Debug)]
pub enum FlowEvent {
    /// Whether an administrator already holds a passkey.
    AdminChecked(AppResult<bool>),
    /// What creating the person and the OAuth2 application gave; both are
    /// attempted together.
    Created { person: AppResult<()>, app: AppResult<()> },
    /// What adding the person to the group gave.
    GroupUpdated(AppResult<()>),
    /// What asking for a credential reset token gave.
    TokenIssued(AppResult<String>),
    /// What saving the setup instructions gave.
    ReadmeSaved(AppResult<()>),
    /// What setting the redirect URL and the scopes gave; both are attempted
    /// together.
    AppConfigured { redirect: AppResult<()>, scopes: AppResult<()> },
}

/// What the caller is to do next.
#[derive(Debug)]
pub enum FlowAction {
    /// Find out whether an administrator already holds a passkey.
    CheckAdmin,
    /// Create the person and the OAuth2 application, together.
    CreatePersonAndApp {
        person_id: String,
        person_display_name: String,
        app_name: String,
        app_display_name: String,
        origin: String,
    },
    /// Add the person to a group.
    AddToGroup { person_id: String, group_id: String },
    /// Ask for a credential reset token for the person.
    IssueResetToken { person_id: String },
    /// Save the setup instructions with this token.
    SaveReadme { token: String },
    /// Set the redirect URL and the scopes of the application, together.
    ConfigureApp { app_name: String, redirect_url: String, scopes: Vec<String> },
    /// Stop, with this result.
    Finish(AppResult<()>),
}

/// A step of the bootstrap: a line to show, if any, and the next action.
#[derive(Debug)]
pub struct FlowStep {
    pub notice: Option<String>,
    pub action: FlowAction,
}

/// The bootstrap of the first administrator and the OAuth2 application, as a
/// state machine: it tells its caller what to do, and the caller reports
/// what came of it.
#[derive(Debug)]
pub struct BootstrapFlow {
    pub plan: FlowPlan,
    pub stage: FlowStage,
}

/// Whether `event` answers the action that `stage` waits for.
pub open spec fn answers(stage: FlowStage, event: FlowEvent) -> bool {
    match stage {
        FlowStage::CheckingAdmin => event is AdminChecked,
        FlowStage::Creating => event is Created,
        FlowStage::AddingToGroup { .. } => event is GroupUpdated,
        FlowStage::IssuingToken { .. } => event is TokenIssued,
        FlowStage::SavingReadme { .. } => event is ReadmeSaved,
        FlowStage::ConfiguringApp => event is AppConfigured,
        FlowStage::Finished => false,
    }
}

/// How far along the bootstrap a stage is.
pub open spec fn progress(stage: FlowStage) -> nat {
    match stage {
        FlowStage::CheckingAdmin => 0,
        FlowStage::Creating => 1,
        FlowStage::AddingToGroup { .. } => 2,
        FlowStage::IssuingToken { .. } => 3,
        FlowStage::SavingReadme { .. } => 4,
        FlowStage::ConfiguringApp => 5,
        FlowStage::Finished => 6,
    }
}

/// Whether a result is a failure other than a conflict.
pub open spec fn hard_failure(r: AppResult<()>) -> bool {
    r matches Err(e) && !signals_conflict(e)
}

/// A step with no line to show that finishes with the error `source`
/// wrapped in `message`.
pub open spec fn fails_with(step: FlowStep, message: Seq<char>, source: AppError) -> bool {
    &&& step.notice is None
    &&& step.action matches FlowAction::Finish(Err(e)) && wraps(e, message, source)
}

/// A step that shows `notice` and finishes successfully.
pub open spec fn succeeds_with(step: FlowStep, notice: Seq<char>) -> bool {
    &&& step.notice matches Some(n) && n@ == notice
    &&& step.action matches FlowAction::Finish(Ok(()))
}

/// The action that creates the person and the application of `plan`.
pub open spec fn creates(action: FlowAction, plan: FlowPlan) -> bool {
    action matches FlowAction::CreatePersonAndApp {
        person_id,
        person_display_name,
        app_name,
        app_display_name,
        origin,
    } && person_id@ == plan.person@ && person_display_name@ == plan.person_display_name@
        && app_name@ == plan.app_name@ && app_display_name@ == plan.app_display_name@ && origin@
        == plan.origin@
}

/// The action that configures the application of `plan`.
pub open spec fn configures(action: FlowAction, plan: FlowPlan) -> bool {
    action matches FlowAction::ConfigureApp { app_name, redirect_url, scopes } && app_name@
        == plan.app_name@ && redirect_url@ == plan.callback_url@ && scopes.deep_view()
        == plan.scopes.deep_view()
}

/// The line shown once the person is in the group and the instructions are
/// saved.
pub open spec fn group_done_text() -> Seq<char> {
    "Group membership updated and setup README saved."@
}

/// What one step of the bootstrap does: from `stage`, on `event`, the flow
/// moves to `next` and asks for `step`.
pub open spec fn transition(
    plan: FlowPlan,
    stage: FlowStage,
    event: FlowEvent,
    next: FlowStage,
    step: FlowStep,
) -> bool {
    match (stage, event) {
        (FlowStage::CheckingAdmin, FlowEvent::AdminChecked(checked)) => match checked {
            Ok(false) => next is Creating && step.notice is None && creates(step.action, plan),
            Ok(true) => next is Finished && succeeds_with(step, "Initial setup is already complete."@),
            Err(e) => {
                &&& next is Finished
                &&& step.notice is None
                &&& step.action matches FlowAction::Finish(Err(AppError::Other(m))) && m@
                    == "Failed to verify administrator status: "@ + rendered(e)
            },
        },
        (FlowStage::Creating, FlowEvent::Created { person, app }) => if hard_failure(person) {
            next is Finished && fails_with(step, "Failed to ensure person exists"@, person->Err_0)
        } else {
            &&& next == (FlowStage::AddingToGroup { app })
            &&& step.notice is None
            &&& step.action matches FlowAction::AddToGroup { person_id, group_id } && person_id@
                == plan.person@ && group_id@ == crate::person::admin_group_name()
        },
        (FlowStage::AddingToGroup { app }, FlowEvent::GroupUpdated(added)) => match added {
            Err(e) => next is Finished && fails_with(step, "Failed to add to group"@, e),
            Ok(()) => {
                &&& next == (FlowStage::IssuingToken { app })
                &&& step.notice is None
                &&& step.action matches FlowAction::IssueResetToken { person_id } && person_id@
                    == plan.person@
            },
        },
        (FlowStage::IssuingToken { app }, FlowEvent::TokenIssued(issued)) => match issued {
            Err(e) => next is Finished && fails_with(step, "Failed to generate reset token"@, e),
            Ok(t) => next == (FlowStage::SavingReadme { app }) && step.notice is None
                && step.action == (FlowAction::SaveReadme { token: t }),
        },
        (FlowStage::SavingReadme { app }, FlowEvent::ReadmeSaved(saved)) => match saved {
            Err(e) => next is Finished && step.notice is None && step.action == FlowAction::Finish(
                Err(e),
            ),
            Ok(()) => step.notice matches Some(n) && n@ == group_done_text() && if hard_failure(
                app,
            ) {
                &&& next is Finished
                &&& step.action matches FlowAction::Finish(Err(e)) && wraps(
                    e,
                    "Failed to create OAuth2 app"@,
                    app->Err_0,
                )
            } else {
                next is ConfiguringApp && configures(step.action, plan)
            },
        },
        (FlowStage::ConfiguringApp, FlowEvent::AppConfigured { redirect, scopes }) => {
            &&& next is Finished
            &&& match (redirect, scopes) {
                (Err(e), _) => fails_with(step, "Failed to set redirect URL"@, e),
                (Ok(()), Err(e)) => fails_with(step, "Failed to sync scopes"@, e),
                (Ok(()), Ok(())) => succeeds_with(step, "Bootstrap successful."@),
            }
        },
        _ => false,
    }
}

/// A text owned as a `String`.
fn owned(text: &str) -> (r: String)
    ensures
        r@ == text@,
{
    String::from_str(text)
}

/// A step without a line to show.
fn quiet(action: FlowAction) -> (r: FlowStep)
    ensures
        r.notice is None,
        r.action == action,
{
    FlowStep { notice: None, action }
}

/// A step that shows `notice`.
fn announced(notice: &str, action: FlowAction) -> (r: FlowStep)
    ensures
        r.notice matches Some(n) && n@ == notice@,
        r.action == action,
{
    FlowStep { notice: Some(owned(notice)), action }
}

fn copy_texts(v: &Vec<String>) -> (r: Vec<String>)
    ensures
        r.deep_view() == v.deep_view(),
{
    let c = v.clone();
    proof {
        broadcast use vstd::std_specs::vec::vec_clone_deep_view_proof;

        assert(c.deep_view() =~= v.deep_view());
    }
    c
}

impl BootstrapFlow {
    /// Starts the bootstrap for the given configurations: it first asks
    /// whether an administrator already holds a passkey.
    pub fn start(k_conf: &KanidmConfig, b_conf: &BootstrapConfig) -> (r: (BootstrapFlow, FlowStep))
        ensures
            r.0.stage is CheckingAdmin,
            r.0.plan.person@ == b_conf.person@,
            r.0.plan.person_display_name@ == b_conf.display_person_name@,
            r.0.plan.app_name@ == b_conf.app_name@,
            r.0.plan.app_display_name@ == b_conf.display_app_name@,
            r.0.plan.origin@ == k_conf.origin@,
            r.0.plan.callback_url@ == b_conf.callback_url@,
            r.0.plan.scopes.deep_view() == b_conf.scopes.deep_view(),
            r.1.notice matches Some(n) && n@ == "Starting bootstrap flow..."@,
            r.1.action is CheckAdmin,
    {
        let plan = FlowPlan {
            person: b_conf.person.clone(),
            person_display_name: b_conf.display_person_name.clone(),
            app_name: b_conf.app_name.clone(),
            app_display_name: b_conf.display_app_name.clone(),
            origin: k_conf.origin.clone(),
            callback_url: b_conf.callback_url.clone(),
            scopes: copy_texts(&b_conf.scopes),
        };
        (
            BootstrapFlow { plan, stage: FlowStage::CheckingAdmin },
            announced("Starting bootstrap flow...", FlowAction::CheckAdmin),
        )
    }

    /// Whether `event` answers the action that the flow waits for.
    pub fn expects(&self, event: &FlowEvent) -> (r: bool)
        ensures
            r == answers(self.stage, *event),
    {
        match (&self.stage, event) {
            (FlowStage::CheckingAdmin, FlowEvent::AdminChecked(_)) => true,
            (FlowStage::Creating, FlowEvent::Created { .. }) => true,
            (FlowStage::AddingToGroup { .. }, FlowEvent::GroupUpdated(_)) => true,
            (FlowStage::IssuingToken { .. }, FlowEvent::TokenIssued(_)) => true,
            (FlowStage::SavingReadme { .. }, FlowEvent::ReadmeSaved(_)) => true,
            (FlowStage::ConfiguringApp, FlowEvent::AppConfigured { .. }) => true,
            _ => false,
        }
    }

    /// Whether the flow has finished.
    pub fn is_finished(&self) -> (r: bool)
        ensures
            r == (self.stage is Finished),
    {
        match self.stage {
            FlowStage::Finished => true,
            _ => false,
        }
    }

    /// Takes in what came of the last action and tells the next one.
    pub fn resume(self, event: FlowEvent) -> (r: (BootstrapFlow, FlowStep))
        requires
            answers(self.stage, event),
        ensures
            r.0.plan == self.plan,
            transition(self.plan, self.stage, event, r.0.stage, r.1),
    {
        let plan = self.plan;
        let (stage, step) = match (self.stage, event) {
            (FlowStage::CheckingAdmin, FlowEvent::AdminChecked(checked)) => match checked {
                Ok(false) => {
                    let action = FlowAction::CreatePersonAndApp {
                        person_id: plan.person.clone(),
                        person_display_name: plan.person_display_name.clone(),
                        app_name: plan.app_name.clone(),
                        app_display_name: plan.app_display_name.clone(),
                        origin: plan.origin.clone(),
                    };
                    (FlowStage::Creating, quiet(action))
                },
                Ok(true) => (
                    FlowStage::Finished,
                    announced("Initial setup is already complete.", FlowAction::Finish(Ok(()))),
                ),
                Err(e) => {
                    let text = owned("Failed to verify administrator status: ").concat(
                        e.render().as_str(),
                    );
                    (FlowStage::Finished, quiet(FlowAction::Finish(Err(AppError::Other(text)))))
                },
            },
            (FlowStage::Creating, FlowEvent::Created { person, app }) => match person {
                Err(e) if !e.is_conflict() => (
                    FlowStage::Finished,
                    quiet(FlowAction::Finish(Err(e.context("Failed to ensure person exists")))),
                ),
                _ => {
                    let action = FlowAction::AddToGroup {
                        person_id: plan.person.clone(),
                        group_id: owned(admin_group()),
                    };
                    (FlowStage::AddingToGroup { app }, quiet(action))
                },
            },
            (FlowStage::AddingToGroup { app }, FlowEvent::GroupUpdated(added)) => match added {
                Err(e) => (
                    FlowStage::Finished,
                    quiet(FlowAction::Finish(Err(e.context("Failed to add to group")))),
                ),
                Ok(()) => (
                    FlowStage::IssuingToken { app },
                    quiet(FlowAction::IssueResetToken { person_id: plan.person.clone() }),
                ),
            },
            (FlowStage::IssuingToken { app }, FlowEvent::TokenIssued(issued)) => match issued {
                Err(e) => (
                    FlowStage::Finished,
                    quiet(FlowAction::Finish(Err(e.context("Failed to generate reset token")))),
                ),
                Ok(token) => (
                    FlowStage::SavingReadme { app },
                    quiet(FlowAction::SaveReadme { token }),
                ),
            },
            (FlowStage::SavingReadme { app }, FlowEvent::ReadmeSaved(saved)) => match saved {
                Err(e) => (FlowStage::Finished, quiet(FlowAction::Finish(Err(e)))),
                Ok(()) => {
                    let done = "Group membership updated and setup README saved.";
                    match app {
                        Err(e) if !e.is_conflict() => (
                            FlowStage::Finished,
                            announced(
                                done,
                                FlowAction::Finish(Err(e.context("Failed to create OAuth2 app"))),
                            ),
                        ),
                        _ => {
                            let action = FlowAction::ConfigureApp {
                                app_name: plan.app_name.clone(),
                                redirect_url: plan.callback_url.clone(),
                                scopes: copy_texts(&plan.scopes),
                            };
                            (FlowStage::ConfiguringApp, announced(done, action))
                        },
                    }
                },
            },
            (FlowStage::ConfiguringApp, FlowEvent::AppConfigured { redirect, scopes }) => {
                let action = match (redirect, scopes) {
                    (Err(e), _) => quiet(
                        FlowAction::Finish(Err(e.context("Failed to set redirect URL"))),
                    ),
                    (Ok(()), Err(e)) => quiet(
                        FlowAction::Finish(Err(e.context("Failed to sync scopes"))),
                    ),
                    (Ok(()), Ok(())) => announced("Bootstrap successful.", FlowAction::Finish(Ok(()))),
                };
                (FlowStage::Finished, action)
            },
            // Not reached: `requires` pairs each stage with the event it waits for.
            (stage, _) => (stage, quiet(FlowAction::Finish(Ok(())))),
        };
        (BootstrapFlow { plan, stage }, step)
    }
}

/// Every event moves the bootstrap forward, so it finishes after at most six
/// events.
pub proof fn lemma_flow_moves_forward(
    plan: FlowPlan,
    stage: FlowStage,
    event: FlowEvent,
    next: FlowStage,
    step: FlowStep,
)
    requires
        transition(plan, stage, event, next, step),
    ensures
        progress(next) > progress(stage),
{
}

/// The bootstrap stops exactly when it reaches the finished stage: the
/// action of a step is `Finish` if and only if the flow has finished.
pub proof fn lemma_finish_only_at_the_end(
    plan: FlowPlan,
    stage: FlowStage,
    event: FlowEvent,
    next: FlowStage,
    step: FlowStep,
)
    requires
        transition(plan, stage, event, next, step),
    ensures
        (step.action is Finish) == (next is Finished),
{
}

/// When an administrator already holds a passkey, the setup is complete:
/// the bootstrap succeeds at once and creates nothing.
pub proof fn lemma_completed_setup_is_left_alone(
    plan: FlowPlan,
    next: FlowStage,
    step: FlowStep,
)
    requires
        transition(plan, FlowStage::CheckingAdmin, FlowEvent::AdminChecked(Ok(true)), next, step),
    ensures
        next is Finished,
        step.action matches FlowAction::Finish(Ok(())),
{
}

/// A person or application that already exists (the server answers 409)
/// does not stop the bootstrap; any other failure to create the person
/// does, with that failure under "Failed to ensure person exists".
pub proof fn lemma_existing_person_or_app_is_reused(
    plan: FlowPlan,
    person: AppResult<()>,
    app: AppResult<()>,
    next: FlowStage,
    step: FlowStep,
)
    requires
        transition(plan, FlowStage::Creating, FlowEvent::Created { person, app }, next, step),
    ensures
        !hard_failure(person) ==> next == (FlowStage::AddingToGroup { app }),
        hard_failure(person) ==> fails_with(
            step,
            "Failed to ensure person exists"@,
            person->Err_0,
        ),
{
}

/// The setup instructions carry exactly the token that the server issued.
pub proof fn lemma_readme_carries_issued_token(
    plan: FlowPlan,
    app: AppResult<()>,
    token: String,
    next: FlowStage,
    step: FlowStep,
)
    requires
        transition(
            plan,
            FlowStage::IssuingToken { app },
            FlowEvent::TokenIssued(Ok(token)),
            next,
            step,
        ),
    ensures
        step.action == (FlowAction::SaveReadme { token }),
{
}

/// When every call succeeds, the bootstrap creates the person and the
/// application, adds the person to the administrators, asks for a reset
/// token, saves the instructions with it, configures the application, and
/// succeeds.
pub proof fn lemma_all_calls_succeed(
    plan: FlowPlan,
    token: String,
    s1: FlowStage,
    a1: FlowStep,
    s2: FlowStage,
    a2: FlowStep,
    s3: FlowStage,
    a3: FlowStep,
    s4: FlowStage,
    a4: FlowStep,
    s5: FlowStage,
    a5: FlowStep,
    s6: FlowStage,
    a6: FlowStep,
)
    requires
        transition(plan, FlowStage::CheckingAdmin, FlowEvent::AdminChecked(Ok(false)), s1, a1),
        transition(plan, s1, FlowEvent::Created { person: Ok(()), app: Ok(()) }, s2, a2),
        transition(plan, s2, FlowEvent::GroupUpdated(Ok(())), s3, a3),
        transition(plan, s3, FlowEvent::TokenIssued(Ok(token)), s4, a4),
        transition(plan, s4, FlowEvent::ReadmeSaved(Ok(())), s5, a5),
        transition(plan, s5, FlowEvent::AppConfigured { redirect: Ok(()), scopes: Ok(()) }, s6, a6),
    ensures
        creates(a1.action, plan),
        a2.action matches FlowAction::AddToGroup { person_id, group_id } && person_id@ == plan.person@
            && group_id@ == crate::person::admin_group_name(),
        a3.action matches FlowAction::IssueResetToken { person_id } && person_id@ == plan.person@,
        a4.action == (FlowAction::SaveReadme { token }),
        configures(a5.action, plan),
        succeeds_with(a6, "Bootstrap successful."@),
        s6 is Finished,
{
}

/// The administrators asked about a passkey are exactly the members other
/// than `default_id`: a name is kept if and only if it is a member and
/// differs from `default_id` (a name that merely ends with `default_id` is
/// kept). So with a member other than `default_id` there is someone to ask.
pub proof fn lemma_new_admins_are_the_other_members(members: Seq<Seq<char>>, default_id: Seq<char>)
    ensures
        forall|x: Seq<char>|
            #[trigger] members.filter(differs_from(default_id)).contains(x) <==> (members.contains(x)
                && x != default_id),
        (exists|i: int| 0 <= i < members.len() && #[trigger] members[i] != default_id) ==> members.filter(
            differs_from(default_id),
        ).len() > 0,
{
    broadcast use vstd::seq_lib::group_filter_ensures;

    let keep = differs_from(default_id);
    let kept = members.filter(keep);
    assert forall|x: Seq<char>| #[trigger] kept.contains(x) <==> (members.contains(x) && x
        != default_id) by {
        if kept.contains(x) {
            members.lemma_filter_contains_rev(keep, x);
            let j = choose|j: int| 0 <= j < kept.len() && kept[j] == x;
            assert(keep(kept[j]));
        }
        if members.contains(x) && x != default_id {
            let i = choose|i: int| 0 <= i < members.len() && members[i] == x;
            assert(keep(members[i]));
        }
    }
    if exists|i: int| 0 <= i < members.len() && #[trigger] members[i] != default_id {
        let i = choose|i: int| 0 <= i < members.len() && #[trigger] members[i] != default_id;
        assert(keep(members[i]));
        assert(kept.contains(members[i]));
    }
}

/// Configuring the application decides the end of the bootstrap: a failed
/// redirect URL is reported under "Failed to set redirect URL" whatever
/// became of the scopes; with the redirect URL set, failed scopes are
/// reported under "Failed to sync scopes"; and the bootstrap succeeds only
/// when both were set.
pub proof fn lemma_app_configuration_needs_both(
    plan: FlowPlan,
    redirect: AppResult<()>,
    scopes: AppResult<()>,
    next: FlowStage,
    step: FlowStep,
)
    requires
        transition(plan, FlowStage::ConfiguringApp, FlowEvent::AppConfigured { redirect, scopes }, next, step),
    ensures
        redirect matches Err(e) ==> (step.action matches FlowAction::Finish(Err(x)) && wraps(
            x,
            "Failed to set redirect URL"@,
            e,
        )),
        redirect is Ok ==> (scopes matches Err(e) ==> (step.action matches FlowAction::Finish(
            Err(x),
        ) && wraps(x, "Failed to sync scopes"@, e))),
        (step.action matches FlowAction::Finish(Ok(()))) <==> (redirect is Ok && scopes is Ok),
        next is Finished,
{
}

/// The bootstrap reports success only in two cases: an administrator
/// already held a passkey, or the last step (the redirect URL and the scopes)
/// succeeded entirely. No failure reported by an event ever ends in success.
pub proof fn lemma_success_only_when_done(
    plan: FlowPlan,
    stage: FlowStage,
    event: FlowEvent,
    next: FlowStage,
    step: FlowStep,
)
    requires
        transition(plan, stage, event, next, step),
        step.action matches FlowAction::Finish(Ok(())),
    ensures
        event matches FlowEvent::AdminChecked(Ok(true)) || event matches FlowEvent::AppConfigured {
            redirect: Ok(_),
            scopes: Ok(_),
        },
{
    match event {
        FlowEvent::AdminChecked(checked) => {
            assert(checked == Ok::<bool, AppError>(true));
        },
        FlowEvent::AppConfigured { redirect, scopes } => {
            assert(stage is ConfiguringApp);
            if redirect is Err {
                assert(step.action matches FlowAction::Finish(Err(_)));
            }
            assert(redirect is Ok);
            if scopes is Err {
                assert(step.action matches FlowAction::Finish(Err(_)));
            }
            assert(scopes is Ok);
        },
        _ => {},
    }
}

} // verus!
