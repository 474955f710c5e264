//! Monitor records and the service operations on them: create a monitor,
//! update one by overlaying changed fields, and the duplicate rule that no
//! two monitors of one model may share cadence, methods, threshold and
//! title.

use vstd::prelude::*;
use vstd::string::StringExecFns;
use crate::alert::{AlertCadence, AlertMetric, spec_cadence_title, spec_metric_title};
use crate::id::Id;
use crate::variance::Variance;

verus! {

/// The threshold configuration of a monitor.
#[derive(Clone, Copy, Debug, PartialEq, Eq, Structural)]
pub struct MonitorThreshold {
    pub metric: AlertMetric,
    pub variance: Variance,
}

/// The alert configuration a form submits: a cadence and a threshold.
#[derive(Clone, Copy, Debug, PartialEq, Eq, Structural)]
pub struct AlertHeuristics {
    pub cadence: AlertCadence,
    pub threshold: MonitorThreshold,
}

/// One way a firing monitor notifies someone.
pub enum AlertMethod {
    Email(String),
    Webhook(String),
}

/// Two methods carry the same variant and the same text.
pub open spec fn spec_method_eq(a: AlertMethod, b: AlertMethod) -> bool {
    match (a, b) {
        (AlertMethod::Email(x), AlertMethod::Email(y)) => x@ == y@,
        (AlertMethod::Webhook(x), AlertMethod::Webhook(y)) => x@ == y@,
        _ => false,
    }
}

impl PartialEq for AlertMethod {
    fn eq(&self, other: &AlertMethod) -> (r: bool) {
        match (self, other) {
            (AlertMethod::Email(x), AlertMethod::Email(y)) => *x == *y,
            (AlertMethod::Webhook(x), AlertMethod::Webhook(y)) => *x == *y,
            _ => false,
        }
    }
}

impl vstd::std_specs::cmp::PartialEqSpecImpl for AlertMethod {
    open spec fn obeys_eq_spec() -> bool {
        true
    }

    open spec fn eq_spec(&self, other: &AlertMethod) -> bool {
        spec_method_eq(*self, *other)
    }
}

/// Element-wise equality of two method lists.
pub open spec fn spec_methods_eq(a: Seq<AlertMethod>, b: Seq<AlertMethod>) -> bool {
    a.len() == b.len() && (forall|i: int|
        0 <= i < a.len() ==> spec_method_eq(#[trigger] a[i], b[i]))
}

/// Compare two method lists element by element.
pub fn methods_eq(a: &Vec<AlertMethod>, b: &Vec<AlertMethod>) -> (r: bool)
    ensures
        r == spec_methods_eq(a@, b@),
{
    if a.len() != b.len() {
        return false;
    }
    let n: usize = a.len();
    let mut i: usize = 0;
    while i < n
        invariant
            n == a@.len() == b@.len(),
            0 <= i <= n,
            forall|j: int| 0 <= j < i ==> spec_method_eq(#[trigger] a@[j], b@[j]),
        decreases n - i,
    {
        if !(&a[i] == &b[i]) {
            return false;
        }
        i = i + 1;
    }
    true
}

/// A fresh list holding the same methods.
pub fn clone_methods(v: &Vec<AlertMethod>) -> (r: Vec<AlertMethod>)
    ensures
        spec_methods_eq(r@, v@),
{
    let n: usize = v.len();
    let mut out: Vec<AlertMethod> = Vec::new();
    let mut i: usize = 0;
    while i < n
        invariant
            n == v@.len(),
            0 <= i <= n,
            out@.len() == i,
            forall|j: int| 0 <= j < i ==> spec_method_eq(#[trigger] out@[j], v@[j]),
        decreases n - i,
    {
        let m = match &v[i] {
            AlertMethod::Email(s) => AlertMethod::Email(s.clone()),
            AlertMethod::Webhook(s) => AlertMethod::Webhook(s.clone()),
        };
        out.push(m);
        i = i + 1;
    }
    out
}

/// A stored monitor: an alerting rule owned by one model.
pub struct Monitor {
    pub id: Id,
    pub model_id: Id,
    pub cadence: AlertCadence,
    pub methods: Vec<AlertMethod>,
    pub threshold: MonitorThreshold,
    pub title: String,
}

/// The failure a service operation reports.
#[derive(Clone, Copy, Debug, PartialEq, Eq, Structural)]
pub enum MonitorError {
    IdenticalAlertExists,
}

impl MonitorError {
    /// The user-facing message of this failure.
    pub fn message(&self) -> (r: String)
        ensures
            r@ == "Identical alert already exists"@,
    {
        String::from_str("Identical alert already exists")
    }
}

/// `m` carries exactly this configuration: the same owning model, cadence,
/// methods, threshold and title.
pub open spec fn spec_monitor_config(
    m: Monitor,
    model_id: Seq<u8>,
    cadence: AlertCadence,
    methods: Seq<AlertMethod>,
    threshold: MonitorThreshold,
    title: Seq<char>,
) -> bool {
    &&& m.model_id.bytes@ == model_id
    &&& m.cadence == cadence
    &&& spec_methods_eq(m.methods@, methods)
    &&& m.threshold == threshold
    &&& m.title@ == title
}

/// Two monitors are semantically identical: they may differ only in their
/// own identifier.
pub open spec fn spec_same_config(a: Monitor, b: Monitor) -> bool {
    spec_monitor_config(a, b.model_id.bytes@, b.cadence, b.methods@, b.threshold, b.title@)
}

/// Some stored monitor already carries this configuration.
pub open spec fn spec_config_present(
    existing: Seq<Monitor>,
    model_id: Seq<u8>,
    cadence: AlertCadence,
    methods: Seq<AlertMethod>,
    threshold: MonitorThreshold,
    title: Seq<char>,
) -> bool {
    exists|i: int|
        0 <= i < existing.len() && spec_monitor_config(
            #[trigger] existing[i],
            model_id,
            cadence,
            methods,
            threshold,
            title,
        )
}

/// Does some monitor in `existing` carry exactly this configuration?
pub fn config_present(
    existing: &Vec<Monitor>,
    model_id: &Id,
    cadence: AlertCadence,
    methods: &Vec<AlertMethod>,
    threshold: MonitorThreshold,
    title: &String,
) -> (r: bool)
    ensures
        r == spec_config_present(existing@, model_id.bytes@, cadence, methods@, threshold, title@),
{
    let n: usize = existing.len();
    let mut i: usize = 0;
    while i < n
        invariant
            n == existing@.len(),
            0 <= i <= n,
            forall|j: int|
                0 <= j < i
                    ==> !spec_monitor_config(
                    #[trigger] existing@[j],
                    model_id.bytes@,
                    cadence,
                    methods@,
                    threshold,
                    title@,
                ),
        decreases n - i,
    {
        let e = &existing[i];
        let hit = crate::bytes_util::bytes_eq(e.model_id.bytes.as_slice(), model_id.bytes.as_slice())
            && e.cadence == cadence && methods_eq(&e.methods, methods) && e.threshold == threshold
            && e.title == *title;
        if hit {
            assert(spec_monitor_config(
                existing@[i as int],
                model_id.bytes@,
                cadence,
                methods@,
                threshold,
                title@,
            ));
            return true;
        }
        i = i + 1;
    }
    false
}

/// Does some monitor in `existing` duplicate `monitor`'s configuration?
pub fn check_for_duplicate_monitor(existing: &Vec<Monitor>, monitor: &Monitor) -> (r: bool)
    ensures
        r == exists|i: int|
            0 <= i < existing@.len() && spec_same_config(#[trigger] existing@[i], *monitor),
{
    config_present(
        existing,
        &monitor.model_id,
        monitor.cadence,
        &monitor.methods,
        monitor.threshold,
        &monitor.title,
    )
}

proof fn lemma_method_eq_trans(a: AlertMethod, b: AlertMethod, c: AlertMethod)
    requires
        spec_method_eq(a, b),
        spec_method_eq(b, c),
    ensures
        spec_method_eq(a, c),
{
}

proof fn lemma_methods_eq_trans(a: Seq<AlertMethod>, b: Seq<AlertMethod>, c: Seq<AlertMethod>)
    requires
        spec_methods_eq(a, b),
        spec_methods_eq(b, c),
    ensures
        spec_methods_eq(a, c),
{
    assert forall|i: int| 0 <= i < a.len() implies spec_method_eq(#[trigger] a[i], c[i]) by {
        lemma_method_eq_trans(a[i], b[i], c[i]);
    }
}

/// The invariant of the data model is preserved: a monitor that the
/// duplicate check let through shares its configuration with nothing
/// stored, so a store without semantically identical monitors stays
/// without them after the insert.
pub proof fn lemma_accepted_monitor_duplicates_nothing(
    existing: Seq<Monitor>,
    model_id: Seq<u8>,
    cadence: AlertCadence,
    methods: Seq<AlertMethod>,
    threshold: MonitorThreshold,
    title: Seq<char>,
    m: Monitor,
)
    requires
        !spec_config_present(existing, model_id, cadence, methods, threshold, title),
        spec_monitor_config(m, model_id, cadence, methods, threshold, title),
    ensures
        forall|i: int| 0 <= i < existing.len() ==> !spec_same_config(#[trigger] existing[i], m),
{
    assert forall|i: int| 0 <= i < existing.len() implies !spec_same_config(
        #[trigger] existing[i],
        m,
    ) by {
        if spec_same_config(existing[i], m) {
            lemma_methods_eq_trans(existing[i].methods@, m.methods@, methods);
            assert(spec_monitor_config(existing[i], model_id, cadence, methods, threshold, title));
        }
    }
}

/// The title a monitor gets when the form leaves it blank: the cadence
/// word, a space, and the metric words.
pub open spec fn spec_default_title(cadence: AlertCadence, metric: AlertMetric) -> Seq<char> {
    spec_cadence_title(cadence) + " "@ + spec_metric_title(metric)
}

/// Build the default title of a monitor with this cadence and metric.
pub fn make_default_title(cadence: AlertCadence, metric: AlertMetric) -> (r: String)
    ensures
        r@ == spec_default_title(cadence, metric),
{
    let mut t: String = cadence.title_word().to_owned();
    t.append(" ");
    t.append(metric.title_word());
    t
}

impl Monitor {
    /// The title this monitor would get if its own were blank.
    pub fn default_title(&self) -> (r: String)
        ensures
            r@ == spec_default_title(self.cadence, self.threshold.metric),
    {
        make_default_title(self.cadence, self.threshold.metric)
    }
}

/// The title a create or update stores: the submitted one, or the derived
/// default when the submitted one is empty.
pub open spec fn spec_stored_title(
    cadence: AlertCadence,
    metric: AlertMetric,
    title: Seq<char>,
) -> Seq<char> {
    if title.len() == 0 {
        spec_default_title(cadence, metric)
    } else {
        title
    }
}

/// Create a monitor: default the title when it is blank, reject a
/// configuration some monitor of the model already carries, and otherwise
/// hand back the record to insert. `existing` is the model's stored
/// monitors; `id` is the fresh identifier the caller generated.
pub fn create_monitor(
    existing: &Vec<Monitor>,
    id: Id,
    model_id: Id,
    cadence: AlertCadence,
    methods: &Vec<AlertMethod>,
    threshold: MonitorThreshold,
    title: &str,
) -> (r: Result<Monitor, MonitorError>)
    ensures
        ({
            let t = spec_stored_title(cadence, threshold.metric, title@);
            match r {
                Ok(m) => {
                    &&& !spec_config_present(existing@, model_id.bytes@, cadence, methods@, threshold, t)
                    &&& m.id.bytes@ == id.bytes@
                    &&& spec_monitor_config(m, model_id.bytes@, cadence, methods@, threshold, t)
                },
                Err(e) => {
                    &&& e == MonitorError::IdenticalAlertExists
                    &&& spec_config_present(existing@, model_id.bytes@, cadence, methods@, threshold, t)
                },
            }
        }),
{
    let t: String = if title.is_empty() {
        make_default_title(cadence, threshold.metric)
    } else {
        title.to_owned()
    };
    if config_present(existing, &model_id, cadence, methods, threshold, &t) {
        return Err(MonitorError::IdenticalAlertExists);
    }
    Ok(
        Monitor {
            id,
            model_id,
            cadence,
            methods: clone_methods(methods),
            threshold,
            title: t,
        },
    )
}

/// Update a stored monitor: overlay the submitted cadence, methods,
/// threshold and title (defaulting a blank title from the stored record),
/// and reject the result if some monitor of the model already carries it.
/// `existing` is the model's stored monitors, the stored record itself
/// among them.
pub fn update_monitor(
    stored: &Monitor,
    existing: &Vec<Monitor>,
    cadence: AlertCadence,
    methods: &Vec<AlertMethod>,
    threshold: MonitorThreshold,
    title: &str,
) -> (r: Result<Monitor, MonitorError>)
    ensures
        ({
            let t = if title@.len() == 0 {
                spec_default_title(stored.cadence, stored.threshold.metric)
            } else {
                title@
            };
            match r {
                Ok(m) => {
                    &&& !spec_config_present(
                        existing@,
                        stored.model_id.bytes@,
                        cadence,
                        methods@,
                        threshold,
                        t,
                    )
                    &&& m.id.bytes@ == stored.id.bytes@
                    &&& spec_monitor_config(
                        m,
                        stored.model_id.bytes@,
                        cadence,
                        methods@,
                        threshold,
                        t,
                    )
                },
                Err(e) => {
                    &&& e == MonitorError::IdenticalAlertExists
                    &&& spec_config_present(
                        existing@,
                        stored.model_id.bytes@,
                        cadence,
                        methods@,
                        threshold,
                        t,
                    )
                },
            }
        }),
{
    let t: String = if title.is_empty() {
        stored.default_title()
    } else {
        title.to_owned()
    };
    if config_present(existing, &stored.model_id, cadence, methods, threshold, &t) {
        return Err(MonitorError::IdenticalAlertExists);
    }
    Ok(
        Monitor {
            id: stored.id.duplicate(),
            model_id: stored.model_id.duplicate(),
            cadence,
            methods: clone_methods(methods),
            threshold,
            title: t,
        },
    )
}

} // verus!
