//! Benchmark results: one record per measured workload, gathered in a
//! report that is handed out whole for persistence.

use vstd::prelude::*;
use vstd::string::StringExecFns;

use crate::metrics::sample_stats::SampleStats;
use crate::state::SelectedWorkload;

verus! {

/// Directory that holds saved reports.
pub const RESULTS_DIR: &'static str = "benchmark_results";

/// Tick-time statistics of a result, in microseconds.
#[derive(Debug, Clone, Copy, PartialEq, Eq, Structural)]
pub struct FrameTimeStats {
    pub min_us: u32,
    pub max_us: u32,
    pub median_us: u32,
    pub mean_us: u32,
    pub std_dev_us: u32,
    pub p95_us: u32,
    pub p99_us: u32,
}

impl FrameTimeStats {
    /// The statistics of a snapshot, without its sample count.
    pub open spec fn of(stats: SampleStats) -> FrameTimeStats {
        FrameTimeStats {
            min_us: stats.min,
            max_us: stats.max,
            median_us: stats.median,
            mean_us: stats.mean,
            std_dev_us: stats.std_dev,
            p95_us: stats.p95,
            p99_us: stats.p99,
        }
    }
}

impl From<SampleStats> for FrameTimeStats {
    fn from(stats: SampleStats) -> (out: FrameTimeStats) {
        FrameTimeStats {
            min_us: stats.min,
            max_us: stats.max,
            median_us: stats.median,
            mean_us: stats.mean,
            std_dev_us: stats.std_dev,
            p95_us: stats.p95,
            p99_us: stats.p99,
        }
    }
}

impl vstd::std_specs::convert::FromSpecImpl<SampleStats> for FrameTimeStats {
    open spec fn obeys_from_spec() -> bool {
        true
    }

    open spec fn from_spec(stats: SampleStats) -> FrameTimeStats {
        FrameTimeStats::of(stats)
    }
}

/// Outcome of the breakdown search for one workload.
#[derive(Debug, PartialEq, Eq)]
pub struct WorkloadResult {
    pub workload_name: String,
    pub workload_description: String,
    /// Largest entity count that met the target.
    pub breakdown_point: usize,
    /// Entities per second at the breakdown point.
    pub throughput_at_breakdown: u64,
    pub frame_time_stats: FrameTimeStats,
}

/// Mathematical model of a [`WorkloadResult`].
pub ghost struct WorkloadResultView {
    pub workload_name: Seq<char>,
    pub workload_description: Seq<char>,
    pub breakdown_point: usize,
    pub throughput_at_breakdown: u64,
    pub frame_time_stats: FrameTimeStats,
}

impl View for WorkloadResult {
    type V = WorkloadResultView;

    open spec fn view(&self) -> WorkloadResultView {
        WorkloadResultView {
            workload_name: self.workload_name@,
            workload_description: self.workload_description@,
            breakdown_point: self.breakdown_point,
            throughput_at_breakdown: self.throughput_at_breakdown,
            frame_time_stats: self.frame_time_stats,
        }
    }
}

impl WorkloadResultView {
    /// The record of a workload that broke down at `breakdown_point`.
    pub open spec fn of(
        workload: SelectedWorkload,
        breakdown_point: usize,
        throughput: u64,
        stats: SampleStats,
    ) -> WorkloadResultView {
        WorkloadResultView {
            workload_name: workload.name_text(),
            workload_description: workload.description_text(),
            breakdown_point,
            throughput_at_breakdown: throughput,
            frame_time_stats: FrameTimeStats::of(stats),
        }
    }
}

impl Clone for WorkloadResult {
    fn clone(&self) -> (copy: WorkloadResult)
        ensures
            copy@ == self@,
    {
        WorkloadResult {
            workload_name: self.workload_name.clone(),
            workload_description: self.workload_description.clone(),
            breakdown_point: self.breakdown_point,
            throughput_at_breakdown: self.throughput_at_breakdown,
            frame_time_stats: self.frame_time_stats,
        }
    }
}

/// The models of a sequence of results, in the same order.
pub open spec fn result_views(results: Seq<WorkloadResult>) -> Seq<WorkloadResultView> {
    results.map_values(|r: WorkloadResult| r@)
}

/// The machine a report was measured on.
#[derive(Debug, PartialEq, Eq)]
pub struct SystemInfo {
    pub os: String,
    /// Number of logical cores.
    pub cpu_cores: usize,
    pub engine_version: String,
}

/// Mathematical model of a [`SystemInfo`].
pub ghost struct SystemInfoView {
    pub os: Seq<char>,
    pub cpu_cores: usize,
    pub engine_version: Seq<char>,
}

impl View for SystemInfo {
    type V = SystemInfoView;

    open spec fn view(&self) -> SystemInfoView {
        SystemInfoView {
            os: self.os@,
            cpu_cores: self.cpu_cores,
            engine_version: self.engine_version@,
        }
    }
}

impl Clone for SystemInfo {
    fn clone(&self) -> (copy: SystemInfo)
        ensures
            copy@ == self@,
    {
        SystemInfo {
            os: self.os.clone(),
            cpu_cores: self.cpu_cores,
            engine_version: self.engine_version.clone(),
        }
    }
}

/// Results of one suite run.
#[derive(Debug, PartialEq, Eq)]
pub struct BenchmarkReport {
    /// Creation time, ISO 8601.
    pub timestamp: String,
    pub target_frame_time_us: u32,
    pub system_info: SystemInfo,
    /// One record per completed workload, in completion order.
    pub results: Vec<WorkloadResult>,
}

/// Mathematical model of a [`BenchmarkReport`].
pub ghost struct BenchmarkReportView {
    pub timestamp: Seq<char>,
    pub target_frame_time_us: u32,
    pub system_info: SystemInfoView,
    pub results: Seq<WorkloadResultView>,
}

impl View for BenchmarkReport {
    type V = BenchmarkReportView;

    open spec fn view(&self) -> BenchmarkReportView {
        BenchmarkReportView {
            timestamp: self.timestamp@,
            target_frame_time_us: self.target_frame_time_us,
            system_info: self.system_info@,
            results: result_views(self.results@),
        }
    }
}

impl BenchmarkReportView {
    /// This report with `result` appended.
    pub open spec fn with_result(self, result: WorkloadResultView) -> BenchmarkReportView {
        BenchmarkReportView { results: self.results.push(result), ..self }
    }
}

/// The current UTC time in RFC 3339 form, from `chrono::Utc::now` and
/// `DateTime::to_rfc3339`.
///
/// Trusted, with no claim about the text: it depends on the clock.  The
/// clock must not stand before 1970.
#[verifier::external_body]
fn utc_timestamp() -> (timestamp: String) {
    chrono::Utc::now().to_rfc3339()
}

/// Format of the time stamp in the name of a report file: date and time
/// of day, joined by an underscore.
pub const FILE_STAMP_FORMAT: &'static str = "%Y%m%d_%H%M%S";

/// The current UTC time in the given `strftime` format, from
/// `chrono::Utc::now` and `DateTime::format`.
///
/// Trusted, with no claim about the text: it depends on the clock.  The
/// clock must not stand before 1970.  Only the file stamp format is
/// admitted, which `chrono` is known to accept.
#[verifier::external_body]
fn utc_formatted(format: &str) -> (stamp: String)
    requires
        format@ == FILE_STAMP_FORMAT@,
{
    chrono::Utc::now().format(format).to_string()
}

/// The path of a report file stamped `stamp`.
pub open spec fn report_path_text(stamp: Seq<char>) -> Seq<char> {
    RESULTS_DIR@ + "/benchmark_"@ + stamp + ".json"@
}

/// The path of a report file stamped `stamp`, below [`RESULTS_DIR`].
pub fn report_path(stamp: &str) -> (path: String)
    ensures
        path@ == report_path_text(stamp@),
{
    let mut path: String = String::from_str(RESULTS_DIR);
    path.append("/benchmark_");
    path.append(stamp);
    path.append(".json");
    path
}

/// The path of a report file stamped with the current UTC time.
pub fn stamped_report_path() -> (path: String)
    ensures
        exists|stamp: Seq<char>| path@ == report_path_text(stamp),
{
    let stamp: String = utc_formatted(FILE_STAMP_FORMAT);
    report_path(stamp.as_str())
}

impl BenchmarkReport {
    /// An empty report created at `timestamp`.
    pub fn with_timestamp(timestamp: String, target_us: u32, system_info: SystemInfo) -> (report:
        BenchmarkReport)
        ensures
            report@ == (BenchmarkReportView {
                timestamp: timestamp@,
                target_frame_time_us: target_us,
                system_info: system_info@,
                results: Seq::empty(),
            }),
    {
        let report = BenchmarkReport {
            timestamp,
            target_frame_time_us: target_us,
            system_info,
            results: Vec::new(),
        };
        assert(report@.results =~= Seq::empty());
        report
    }

    /// An empty report created now.
    pub fn new(target_us: u32, system_info: SystemInfo) -> (report: BenchmarkReport)
        ensures
            report@ == (BenchmarkReportView {
                timestamp: report@.timestamp,
                target_frame_time_us: target_us,
                system_info: system_info@,
                results: Seq::empty(),
            }),
    {
        BenchmarkReport::with_timestamp(utc_timestamp(), target_us, system_info)
    }

    /// Appends `result`.
    pub fn add_result(&mut self, result: WorkloadResult)
        ensures
            final(self)@ == old(self)@.with_result(result@),
    {
        self.results.push(result);
        assert(result_views(self.results@) =~= result_views(old(self).results@).push(result@));
    }
}

/// Why a report could not be saved.
#[derive(Debug, Clone, PartialEq, Eq)]
pub enum SaveError {
    /// No report is active.
    NoReport,
    /// The results directory could not be created.
    CreateDirectory(String),
    /// The report could not be serialized.
    Serialize(String),
    /// The report file could not be written.
    WriteFile(String),
}

impl SaveError {
    /// The message of this error, as a sequence of characters.
    pub open spec fn message_text(self) -> Seq<char> {
        match self {
            SaveError::NoReport => "No report to save"@,
            SaveError::CreateDirectory(cause) => "Failed to create directory: "@ + cause@,
            SaveError::Serialize(cause) => "Failed to serialize: "@ + cause@,
            SaveError::WriteFile(cause) => "Failed to write file: "@ + cause@,
        }
    }

    /// The message of this error: what failed, and the underlying cause
    /// where there is one.
    pub fn message(&self) -> (text: String)
        ensures
            text@ == self.message_text(),
    {
        match self {
            SaveError::NoReport => String::from_str("No report to save"),
            SaveError::CreateDirectory(cause) => {
                let mut text: String = String::from_str("Failed to create directory: ");
                text.append(cause.as_str());
                text
            },
            SaveError::Serialize(cause) => {
                let mut text: String = String::from_str("Failed to serialize: ");
                text.append(cause.as_str());
                text
            },
            SaveError::WriteFile(cause) => {
                let mut text: String = String::from_str("Failed to write file: ");
                text.append(cause.as_str());
                text
            },
        }
    }
}

/// The active report, if any, and the most recent result.
#[derive(Debug, PartialEq, Eq)]
pub struct BenchmarkResults {
    pub report: Option<BenchmarkReport>,
    pub current_workload_result: Option<WorkloadResult>,
}

/// Mathematical model of [`BenchmarkResults`].
pub ghost struct BenchmarkResultsView {
    pub report: Option<BenchmarkReportView>,
    pub current_workload_result: Option<WorkloadResultView>,
}

impl View for BenchmarkResults {
    type V = BenchmarkResultsView;

    open spec fn view(&self) -> BenchmarkResultsView {
        BenchmarkResultsView {
            report: match self.report {
                Some(report) => Some(report@),
                None => None,
            },
            current_workload_result: match self.current_workload_result {
                Some(result) => Some(result@),
                None => None,
            },
        }
    }
}

impl BenchmarkResultsView {
    /// No report and no result.
    pub open spec fn empty() -> BenchmarkResultsView {
        BenchmarkResultsView { report: None, current_workload_result: None }
    }

    /// These results after `result` was recorded: it becomes the most
    /// recent result and is appended to the active report, if there is one.
    pub open spec fn recorded(self, result: WorkloadResultView) -> BenchmarkResultsView {
        BenchmarkResultsView {
            report: match self.report {
                Some(report) => Some(report.with_result(result)),
                None => None,
            },
            current_workload_result: Some(result),
        }
    }

    /// Number of results in the active report; zero without a report.
    pub open spec fn count(self) -> nat {
        match self.report {
            Some(report) => report.results.len(),
            None => 0,
        }
    }
}

impl Default for BenchmarkResults {
    fn default() -> (results: BenchmarkResults)
        ensures
            results@ == BenchmarkResultsView::empty(),
    {
        BenchmarkResults { report: None, current_workload_result: None }
    }
}

impl BenchmarkResults {
    /// Replaces any report in progress by an empty one created now, and
    /// forgets the most recent result.
    pub fn start_new_report(&mut self, target_us: u32, system_info: SystemInfo)
        ensures
            final(self)@.current_workload_result.is_none(),
            final(self)@.report.is_some(),
            final(self)@.report->0.target_frame_time_us == target_us,
            final(self)@.report->0.system_info == system_info@,
            final(self)@.report->0.results == Seq::<WorkloadResultView>::empty(),
    {
        self.report = Some(BenchmarkReport::new(target_us, system_info));
        self.current_workload_result = None;
    }

    /// Records that `workload` broke down at `breakdown_point`.
    pub fn record_workload_result(
        &mut self,
        workload: SelectedWorkload,
        breakdown_point: usize,
        throughput: u64,
        stats: SampleStats,
    )
        ensures
            final(self)@ == old(self)@.recorded(
                WorkloadResultView::of(workload, breakdown_point, throughput, stats),
            ),
    {
        let result = WorkloadResult {
            workload_name: String::from_str(workload.name()),
            workload_description: String::from_str(workload.description()),
            breakdown_point,
            throughput_at_breakdown: throughput,
            frame_time_stats: FrameTimeStats::from(stats),
        };
        self.current_workload_result = Some(result.clone());
        let active: Option<BenchmarkReport> = self.report.take();
        match active {
            Some(mut report) => {
                report.add_result(result);
                self.report = Some(report);
            },
            None => {},
        }
    }

    /// The report to persist.
    ///
    /// Fails with [`SaveError::NoReport`] exactly when no report is active.
    pub fn save_report(&self) -> (outcome: Result<&BenchmarkReport, SaveError>)
        ensures
            match outcome {
                Ok(report) => self.report == Some(*report),
                Err(error) => self.report.is_none() && error == SaveError::NoReport,
            },
    {
        match &self.report {
            Some(report) => Ok(report),
            None => Err(SaveError::NoReport),
        }
    }

    /// Whether the active report holds a result.
    pub fn has_results(&self) -> (any: bool)
        ensures
            any == (self@.count() > 0),
    {
        match &self.report {
            Some(report) => report.results.len() > 0,
            None => false,
        }
    }

    /// Number of results in the active report; zero without a report.
    pub fn result_count(&self) -> (count: usize)
        ensures
            count == self@.count(),
    {
        match &self.report {
            Some(report) => report.results.len(),
            None => 0,
        }
    }
}

} // verus!
