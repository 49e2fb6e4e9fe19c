//! Rendering a [`MetricManifest`] as Prometheus text exposition.
//!
//! For each metric the output holds a `# HELP` line (with a fixed
//! placeholder when the metric declares none), a `# TYPE` line, and one
//! sample line per series. A series whose label-value count differs from
//! the metric's label-name count is a rendering error, as is a metric name
//! that was already rendered.

use vstd::prelude::*;
use vstd::string::StrSliceExecFns;
use vstd::string::StringExecFns;
use crate::json::push_char;
use crate::json::str_eq;
use crate::manifest::MetricKind;
use crate::manifest::MetricDef;
use crate::manifest::MetricDefV;
use crate::manifest::SeriesPointV;
use crate::manifest::MetricManifest;
use crate::manifest::ManifestV;

verus! {

/// Why a manifest failed to render.
#[derive(Clone, Copy, PartialEq, Eq, Structural, Debug)]
pub enum RenderError {
    /// A series' label-value count differs from its metric's label-name
    /// count.
    LabelArityMismatch,
    /// Two metrics share one name.
    DuplicateMetricName,
}

/// The placeholder help text used when a metric declares none.
pub open spec fn spec_help_text() -> Seq<char> {
    "jsonnet-exporter: Metric help is missing, consider adding a help text to the module config."@
}

/// The help text a metric renders with.
pub open spec fn spec_effective_help(h: Option<Seq<char>>) -> Seq<char> {
    match h {
        Some(t) => t,
        None => spec_help_text(),
    }
}

/// How one character appears inside a help line.
pub open spec fn esc_help_char(c: char) -> Seq<char> {
    if c == '\\' {
        seq!['\\', '\\']
    } else if c == '\n' {
        seq!['\\', 'n']
    } else {
        seq![c]
    }
}

/// A help text with backslashes and line feeds escaped.
pub open spec fn esc_help(s: Seq<char>) -> Seq<char>
    decreases s.len(),
{
    if s.len() == 0 {
        Seq::empty()
    } else {
        esc_help_char(s[0]) + esc_help(s.skip(1))
    }
}

/// How one character appears inside a quoted label value.
pub open spec fn esc_label_char(c: char) -> Seq<char> {
    if c == '\\' {
        seq!['\\', '\\']
    } else if c == '\n' {
        seq!['\\', 'n']
    } else if c == '"' {
        seq!['\\', '"']
    } else {
        seq![c]
    }
}

/// A label value with backslashes, line feeds and quotes escaped.
pub open spec fn esc_label(s: Seq<char>) -> Seq<char>
    decreases s.len(),
{
    if s.len() == 0 {
        Seq::empty()
    } else {
        esc_label_char(s[0]) + esc_label(s.skip(1))
    }
}

/// The exposition name of a metric kind.
pub open spec fn spec_kind_text(k: MetricKind) -> Seq<char> {
    match k {
        MetricKind::Gauge => "gauge"@,
    }
}

/// The `name="value"` pairs of one sample, comma-separated.
pub open spec fn spec_labels_text(names: Seq<Seq<char>>, values: Seq<Seq<char>>) -> Seq<char>
    decreases names.len(),
{
    if names.len() == 0 {
        Seq::empty()
    } else if names.len() == 1 {
        names[0] + "=\""@ + esc_label(values[0]) + seq!['"']
    } else {
        names[0] + "=\""@ + esc_label(values[0]) + seq!['"', ','] + spec_labels_text(
            names.skip(1),
            values.skip(1),
        )
    }
}

/// One sample line; the `{...}` block is omitted when the metric declares
/// no labels.
pub open spec fn spec_sample_line(
    name: Seq<char>,
    names: Seq<Seq<char>>,
    p: SeriesPointV,
) -> Seq<char> {
    if names.len() == 0 {
        name + seq![' '] + p.value + seq!['\n']
    } else {
        name + seq!['{'] + spec_labels_text(names, p.label_values) + seq!['}', ' '] + p.value
            + seq!['\n']
    }
}

/// All sample lines of one metric, in series order.
pub open spec fn spec_samples(
    name: Seq<char>,
    names: Seq<Seq<char>>,
    series: Seq<SeriesPointV>,
) -> Seq<char>
    decreases series.len(),
{
    if series.len() == 0 {
        Seq::empty()
    } else {
        spec_sample_line(name, names, series[0]) + spec_samples(name, names, series.skip(1))
    }
}

/// Every series of `d` has as many label values as `d` has label names
/// (both zero counts as a match).
pub open spec fn spec_arity_ok(d: MetricDefV) -> bool {
    forall|k: int|
        0 <= k < d.series.len() ==> (#[trigger] d.series[k].label_values).len()
            == d.label_names.len()
}

/// The exposition text of one metric, or the arity error.
pub open spec fn spec_render_metric(name: Seq<char>, d: MetricDefV) -> Result<
    Seq<char>,
    RenderError,
> {
    if !spec_arity_ok(d) {
        Err(RenderError::LabelArityMismatch)
    } else {
        Ok(
            "# HELP "@ + name + seq![' '] + esc_help(spec_effective_help(d.help)) + seq!['\n']
                + "# TYPE "@ + name + seq![' '] + spec_kind_text(d.kind) + seq!['\n']
                + spec_samples(name, d.label_names, d.series),
        )
    }
}

/// Renders metrics in order, tracking the names already registered.
pub open spec fn spec_render_rest(ms: ManifestV, seen: Set<Seq<char>>) -> Result<
    Seq<char>,
    RenderError,
>
    decreases ms.len(),
{
    if ms.len() == 0 {
        Ok(Seq::empty())
    } else if seen.contains(ms[0].0) {
        Err(RenderError::DuplicateMetricName)
    } else {
        match spec_render_metric(ms[0].0, ms[0].1) {
            Err(e) => Err(e),
            Ok(t) => match spec_render_rest(ms.skip(1), seen.insert(ms[0].0)) {
                Err(e) => Err(e),
                Ok(rest) => Ok(t + rest),
            },
        }
    }
}

/// The exposition text of a whole manifest, or the first error in
/// manifest order.
pub open spec fn spec_render(ms: ManifestV) -> Result<Seq<char>, RenderError> {
    spec_render_rest(ms, Set::empty())
}

/// Appends a help text, escaped, to `out`.
fn push_help_text(out: &mut String, s: &str)
    ensures
        final(out)@ == old(out)@ + esc_help(s@),
{
    let n = s.unicode_len();
    let mut i: usize = 0;
    proof {
        assert(s@.skip(0) =~= s@);
    }
    while i < n
        invariant
            0 <= i <= n,
            n == s@.len(),
            out@ + esc_help(s@.skip(i as int)) == old(out)@ + esc_help(s@),
        decreases n - i,
    {
        let c = s.get_char(i);
        proof {
            assert(s@.skip(i as int)[0] == s@[i as int]);
            assert(s@.skip(i as int).skip(1) =~= s@.skip(i as int + 1));
        }
        if c == '\\' {
            push_char(out, '\\');
            push_char(out, '\\');
        } else if c == '\n' {
            push_char(out, '\\');
            push_char(out, 'n');
        } else {
            push_char(out, c);
        }
        proof {
            assert(out@ + esc_help(s@.skip(i as int + 1)) =~= old(out)@ + esc_help(s@));
        }
        i = i + 1;
    }
    proof {
        assert(s@.skip(n as int) =~= Seq::<char>::empty());
        assert(out@ + esc_help(s@.skip(n as int)) =~= out@);
    }
}

/// Appends a label value, escaped, to `out`.
fn push_label_value(out: &mut String, s: &str)
    ensures
        final(out)@ == old(out)@ + esc_label(s@),
{
    let n = s.unicode_len();
    let mut i: usize = 0;
    proof {
        assert(s@.skip(0) =~= s@);
    }
    while i < n
        invariant
            0 <= i <= n,
            n == s@.len(),
            out@ + esc_label(s@.skip(i as int)) == old(out)@ + esc_label(s@),
        decreases n - i,
    {
        let c = s.get_char(i);
        proof {
            assert(s@.skip(i as int)[0] == s@[i as int]);
            assert(s@.skip(i as int).skip(1) =~= s@.skip(i as int + 1));
        }
        if c == '\\' {
            push_char(out, '\\');
            push_char(out, '\\');
        } else if c == '\n' {
            push_char(out, '\\');
            push_char(out, 'n');
        } else if c == '"' {
            push_char(out, '\\');
            push_char(out, '"');
        } else {
            push_char(out, c);
        }
        proof {
            assert(out@ + esc_label(s@.skip(i as int + 1)) =~= old(out)@ + esc_label(s@));
        }
        i = i + 1;
    }
    proof {
        assert(s@.skip(n as int) =~= Seq::<char>::empty());
        assert(out@ + esc_label(s@.skip(n as int)) =~= out@);
    }
}

/// Appends one metric's exposition text to `out`; on an arity error `out`
/// is left unchanged.
fn push_metric(out: &mut String, name: &String, d: &MetricDef) -> (r: Result<(), RenderError>)
    ensures
        match r {
            Ok(_) => spec_render_metric(name@, d.deep_view()) matches Ok(t) && final(out)@ == old(
                out,
            )@ + t,
            Err(e) => spec_render_metric(name@, d.deep_view()) == Err::<Seq<char>, RenderError>(e)
                && final(out)@ == old(out)@,
        },
{
    let ghost dv = d.deep_view();
    let ln = d.label_names.len();
    let ns = d.series.len();
    let mut k: usize = 0;
    while k < ns
        invariant
            0 <= k <= ns,
            ns == d.series@.len(),
            ln == d.label_names@.len(),
            dv == d.deep_view(),
            forall|q: int|
                0 <= q < k ==> (#[trigger] dv.series[q].label_values).len()
                    == dv.label_names.len(),
        decreases ns - k,
    {
        if d.series[k].label_values.len() != ln {
            proof {
                assert(dv.series[k as int].label_values.len() != dv.label_names.len());
                assert(!spec_arity_ok(dv));
            }
            return Err(RenderError::LabelArityMismatch);
        }
        k = k + 1;
    }
    proof {
        assert(spec_arity_ok(dv));
    }
    let ghost t0 = out@;
    out.append("# HELP ");
    out.append(name.as_str());
    push_char(out, ' ');
    match &d.help {
        Some(h) => push_help_text(out, h.as_str()),
        None => push_help_text(
            out,
            "jsonnet-exporter: Metric help is missing, consider adding a help text to the module config.",
        ),
    }
    push_char(out, '\n');
    out.append("# TYPE ");
    out.append(name.as_str());
    push_char(out, ' ');
    match d.kind {
        MetricKind::Gauge => out.append("gauge"),
    }
    push_char(out, '\n');
    proof {
        assert(out@ =~= t0 + "# HELP "@ + name@ + seq![' '] + esc_help(spec_effective_help(dv.help))
            + seq!['\n'] + "# TYPE "@ + name@ + seq![' '] + spec_kind_text(dv.kind) + seq!['\n']);
    }
    let ghost t1 = out@;
    let mut k: usize = 0;
    proof {
        assert(dv.series.skip(0) =~= dv.series);
    }
    while k < ns
        invariant
            0 <= k <= ns,
            ns == d.series@.len(),
            dv == d.deep_view(),
            spec_arity_ok(dv),
            out@ + spec_samples(name@, dv.label_names, dv.series.skip(k as int)) == t1
                + spec_samples(name@, dv.label_names, dv.series),
        decreases ns - k,
    {
        proof {
            assert(dv.series.skip(k as int)[0] == dv.series[k as int]);
            assert(dv.series.skip(k as int).skip(1) =~= dv.series.skip(k as int + 1));
        }
        let point = &d.series[k];
        let ghost pv = dv.series[k as int];
        proof {
            assert(pv == point.deep_view());
            assert(pv.label_values.len() == dv.label_names.len());
        }
        let ghost line_start = out@;
        out.append(name.as_str());
        if d.label_names.len() > 0 {
            push_char(out, '{');
            push_labels(out, &d.label_names, &point.label_values);
            push_char(out, '}');
        }
        push_char(out, ' ');
        out.append(point.value.as_str());
        push_char(out, '\n');
        proof {
            assert(out@ =~= line_start + spec_sample_line(name@, dv.label_names, pv));
            assert(out@ + spec_samples(name@, dv.label_names, dv.series.skip(k as int + 1)) =~= t1
                + spec_samples(name@, dv.label_names, dv.series));
        }
        k = k + 1;
    }
    proof {
        assert(dv.series.skip(ns as int) =~= Seq::<SeriesPointV>::empty());
        assert(out@ + spec_samples(name@, dv.label_names, dv.series.skip(ns as int)) =~= out@);
        assert(spec_render_metric(name@, dv) matches Ok(t) && out@ == old(out)@ + t) by {
            assert(out@ =~= old(out)@ + ("# HELP "@ + name@ + seq![' '] + esc_help(
                spec_effective_help(dv.help),
            ) + seq!['\n'] + "# TYPE "@ + name@ + seq![' '] + spec_kind_text(dv.kind) + seq!['\n']
                + spec_samples(name@, dv.label_names, dv.series)));
        }
    }
    Ok(())
}

/// Appends the comma-separated `name="value"` pairs of one sample.
fn push_labels(out: &mut String, names: &Vec<String>, values: &Vec<String>)
    requires
        names@.len() == values@.len(),
    ensures
        final(out)@ == old(out)@ + spec_labels_text(names.deep_view(), values.deep_view()),
{
    let ghost nv = names.deep_view();
    let ghost vv = values.deep_view();
    let nl = names.len();
    let mut q: usize = 0;
    proof {
        assert(nv.skip(0) =~= nv);
        assert(vv.skip(0) =~= vv);
    }
    while q < nl
        invariant
            0 <= q <= nl,
            nl == names@.len(),
            nl == values@.len(),
            nv == names.deep_view(),
            vv == values.deep_view(),
            out@ + spec_labels_text(nv.skip(q as int), vv.skip(q as int)) == old(out)@
                + spec_labels_text(nv, vv),
        decreases nl - q,
    {
        proof {
            assert(nv.skip(q as int)[0] == nv[q as int]);
            assert(vv.skip(q as int)[0] == vv[q as int]);
            assert(nv.skip(q as int).skip(1) =~= nv.skip(q as int + 1));
            assert(vv.skip(q as int).skip(1) =~= vv.skip(q as int + 1));
        }
        out.append(names[q].as_str());
        out.append("=\"");
        push_label_value(out, values[q].as_str());
        push_char(out, '"');
        if q + 1 < nl {
            push_char(out, ',');
        }
        proof {
            assert(out@ + spec_labels_text(nv.skip(q as int + 1), vv.skip(q as int + 1)) =~= old(
                out,
            )@ + spec_labels_text(nv, vv));
        }
        q = q + 1;
    }
    proof {
        assert(nv.skip(nl as int) =~= Seq::<Seq<char>>::empty());
        assert(out@ + spec_labels_text(nv.skip(nl as int), vv.skip(nl as int)) =~= out@);
    }
}

/// Renders a manifest as exposition text, reporting the first arity
/// mismatch or duplicate metric name in manifest order.
pub fn render(m: &MetricManifest) -> (r: Result<String, RenderError>)
    ensures
        match r {
            Ok(t) => spec_render(m@) == Ok::<Seq<char>, RenderError>(t@),
            Err(e) => spec_render(m@) == Err::<Seq<char>, RenderError>(e),
        },
{
    let ghost mv = m@;
    let n = m.metrics.len();
    let mut out = String::new();
    let ghost mut seen: Set<Seq<char>> = Set::empty();
    let mut i: usize = 0;
    proof {
        assert(mv.skip(0) =~= mv);
        assert(mv == m.metrics.deep_view());
    }
    while i < n
        invariant
            0 <= i <= n,
            n == m.metrics@.len(),
            mv == m@,
            mv == m.metrics.deep_view(),
            mv.len() == n,
            forall|x: Seq<char>|
                seen.contains(x) <==> exists|b: int| 0 <= b < i && (#[trigger] mv[b]).0 == x,
            match spec_render_rest(mv.skip(i as int), seen) {
                Ok(rest) => spec_render(mv) == Ok::<Seq<char>, RenderError>(out@ + rest),
                Err(e) => spec_render(mv) == Err::<Seq<char>, RenderError>(e),
            },
        decreases n - i,
    {
        proof {
            assert(mv.skip(i as int)[0] == mv[i as int]);
            assert(mv.skip(i as int).skip(1) =~= mv.skip(i as int + 1));
            assert(mv[i as int].0 == m.metrics@[i as int].0@);
            assert(mv[i as int].1 == m.metrics@[i as int].1.deep_view());
        }
        let name: &String = &m.metrics[i].0;
        let mut dup = false;
        let mut b: usize = 0;
        while b < i
            invariant
                0 <= b <= i < n,
                n == m.metrics@.len(),
                mv == m.metrics.deep_view(),
                mv.len() == n,
                name@ == mv[i as int].0,
                dup ==> exists|c: int| 0 <= c < i && (#[trigger] mv[c]).0 == name@,
                !dup ==> forall|c: int| 0 <= c < b ==> (#[trigger] mv[c]).0 != name@,
            decreases i - b,
        {
            proof {
                assert(mv[b as int].0 == m.metrics@[b as int].0@);
            }
            if str_eq(m.metrics[b].0.as_str(), name.as_str()) {
                dup = true;
            }
            b = b + 1;
        }
        if dup {
            proof {
                assert(seen.contains(mv[i as int].0));
                assert(spec_render_rest(mv.skip(i as int), seen) == Err::<Seq<char>, RenderError>(
                    RenderError::DuplicateMetricName,
                ));
            }
            return Err(RenderError::DuplicateMetricName);
        }
        proof {
            assert(!seen.contains(mv[i as int].0));
        }
        let ghost out0 = out@;
        match push_metric(&mut out, name, &m.metrics[i].1) {
            Ok(_) => {
                proof {
                    let t = spec_render_metric(mv[i as int].0, mv[i as int].1).unwrap();
                    let seen2 = seen.insert(mv[i as int].0);
                    if spec_render_rest(mv.skip(i as int + 1), seen2) is Ok {
                        let rest = spec_render_rest(mv.skip(i as int + 1), seen2).unwrap();
                        assert(out0 + (t + rest) =~= out@ + rest);
                    }
                    seen = seen2;
                    assert(forall|x: Seq<char>|
                        seen.contains(x) <==> exists|c: int|
                            0 <= c < i + 1 && (#[trigger] mv[c]).0 == x);
                }
            },
            Err(e) => {
                proof {
                    assert(spec_render_rest(mv.skip(i as int), seen) == Err::<
                        Seq<char>,
                        RenderError,
                    >(e));
                }
                return Err(e);
            },
        }
        i = i + 1;
    }
    proof {
        assert(mv.skip(n as int) =~= Seq::<(Seq<char>, MetricDefV)>::empty());
        assert(out@ + Seq::<char>::empty() =~= out@);
    }
    Ok(out)
}

/// Every metric name in `ms` occurs once.
pub open spec fn unique_names(ms: ManifestV) -> bool {
    forall|a: int, b: int|
        0 <= a < b < ms.len() ==> (#[trigger] ms[a]).0 != (#[trigger] ms[b]).0
}

/// Some series in `ms` has a label-value count differing from its metric's
/// label-name count.
pub open spec fn any_arity_mismatch(ms: ManifestV) -> bool {
    exists|k: int| 0 <= k < ms.len() && !spec_arity_ok((#[trigger] ms[k]).1)
}

proof fn lemma_render_rest_arity(ms: ManifestV, seen: Set<Seq<char>>)
    requires
        unique_names(ms),
        forall|j: int| 0 <= j < ms.len() ==> !seen.contains((#[trigger] ms[j]).0),
    ensures
        (spec_render_rest(ms, seen) == Err::<Seq<char>, RenderError>(
            RenderError::LabelArityMismatch,
        )) <==> any_arity_mismatch(ms),
        !any_arity_mismatch(ms) ==> spec_render_rest(ms, seen) is Ok,
    decreases ms.len(),
{
    if ms.len() == 0 {
        assert(!any_arity_mismatch(ms));
    } else {
        let tail = ms.skip(1);
        assert forall|a: int, b: int| 0 <= a < b < tail.len() implies (#[trigger] tail[a]).0 != (
        #[trigger] tail[b]).0 by {
            assert(tail[a] == ms[a + 1]);
            assert(tail[b] == ms[b + 1]);
        }
        let seen2 = seen.insert(ms[0].0);
        assert forall|j: int| 0 <= j < tail.len() implies !seen2.contains(
            (#[trigger] tail[j]).0,
        ) by {
            assert(tail[j] == ms[j + 1]);
            assert(ms[j + 1].0 != ms[0].0);
        }
        lemma_render_rest_arity(tail, seen2);
        assert(!seen.contains(ms[0].0));
        if !spec_arity_ok(ms[0].1) {
            assert(any_arity_mismatch(ms));
            assert(spec_render_rest(ms, seen) == Err::<Seq<char>, RenderError>(
                RenderError::LabelArityMismatch,
            ));
        } else {
            if any_arity_mismatch(tail) {
                let k = choose|k: int| 0 <= k < tail.len() && !spec_arity_ok((#[trigger] tail[k]).1);
                assert(tail[k] == ms[k + 1]);
                assert(!spec_arity_ok(ms[k + 1].1));
                assert(any_arity_mismatch(ms));
            }
            if any_arity_mismatch(ms) {
                let k = choose|k: int| 0 <= k < ms.len() && !spec_arity_ok((#[trigger] ms[k]).1);
                assert(k != 0);
                assert(tail[k - 1] == ms[k]);
                assert(any_arity_mismatch(tail));
            }
        }
    }
}

/// Law: rendering a manifest whose metric names are unique fails with
/// `LabelArityMismatch` exactly when some series' label-value count differs
/// from its metric's label-name count, and succeeds whenever every series
/// matches — the zero-names/zero-values case included.
pub proof fn lemma_render_arity(ms: ManifestV)
    requires
        unique_names(ms),
    ensures
        (spec_render(ms) == Err::<Seq<char>, RenderError>(RenderError::LabelArityMismatch))
            <==> any_arity_mismatch(ms),
        !any_arity_mismatch(ms) ==> spec_render(ms) is Ok,
{
    lemma_render_rest_arity(ms, Set::empty());
}

/// Law: a metric declaring no help text renders exactly as the same metric
/// whose help is the fixed placeholder text.
pub proof fn lemma_default_help(name: Seq<char>, d: MetricDefV, dh: MetricDefV)
    requires
        d.help is None,
        dh.kind == d.kind,
        dh.help == Some(spec_help_text()),
        dh.label_names == d.label_names,
        dh.series == d.series,
    ensures
        spec_render_metric(name, d) == spec_render_metric(name, dh),
{
    assert(spec_effective_help(d.help) == spec_effective_help(dh.help));
    assert(spec_arity_ok(d) == spec_arity_ok(dh));
}

} // verus!
