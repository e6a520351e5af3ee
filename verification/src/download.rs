//! The download adapter.

use crate::paths::{file_stem, join_path, joined, stem_of};
use crate::text::starts_with;
use crate::tools::{
    arg_models, arguments, output_failure, run_failure, CommandModel, ExternalToolError, Fault,
    RunModel, ToolCommand, ToolErrorKind, ToolErrorModel, ToolRun,
};
use vstd::prelude::*;

verus! {

/// The name under which the downloader is run.
pub open spec fn downloader() -> Seq<char> {
    "yt-dlp"@
}

/// The beginning of the name of a job's downloaded video.
pub open spec fn video_prefix(job_id: Seq<char>) -> Seq<char> {
    job_id + "_video"@
}

/// The output template handed to the downloader, which fills in the
/// container's extension.
pub open spec fn download_template(output_dir: Seq<char>, job_id: Seq<char>) -> Seq<char> {
    joined(output_dir, video_prefix(job_id) + ".%(ext)s"@)
}

/// The downloader's invocation: the best video of at most 1080 lines, written
/// to the job's template, a single item, no chatter.
pub open spec fn download_invocation(
    url: Seq<char>,
    output_dir: Seq<char>,
    job_id: Seq<char>,
) -> CommandModel {
    CommandModel {
        program: downloader(),
        args: seq![
            "--format"@,
            "best[height<=1080]"@,
            "--output"@,
            download_template(output_dir, job_id),
            "--no-playlist"@,
            "--quiet"@,
            "--no-warnings"@,
            url,
        ],
    }
}

/// Whether the file `name` is a download of the job.
pub open spec fn is_download(name: Seq<char>, job_id: Seq<char>) -> bool {
    video_prefix(job_id).is_prefix_of(stem_of(name))
}

/// The first of `names` that is a download of the job.
pub open spec fn first_download(names: Seq<Seq<char>>, job_id: Seq<char>) -> Option<Seq<char>>
    decreases names.len(),
{
    if names.len() == 0 {
        None
    } else if is_download(names.first(), job_id) {
        Some(names.first())
    } else {
        first_download(names.drop_first(), job_id)
    }
}

/// What the download yields: the path of the first listed file whose stem
/// begins with `<job_id>_video`, where the downloader succeeded and there is
/// such a file.
pub open spec fn download_result(
    run: RunModel,
    names: Seq<Seq<char>>,
    output_dir: Seq<char>,
    job_id: Seq<char>,
) -> Result<Seq<char>, ToolErrorModel> {
    if !run.succeeded() {
        Err(run_failure(ToolErrorKind::DownloadFailed, downloader(), run))
    } else {
        match first_download(names, job_id) {
            Some(name) => Ok(joined(output_dir, name)),
            None => Err(
                output_failure(
                    ToolErrorKind::DownloadFailed,
                    Fault::OutputMissing,
                    downloader(),
                    run,
                ),
            ),
        }
    }
}

/// The command that downloads the video at `url` for the job.
pub fn download_command(url: &str, output_dir: &str, job_id: &str) -> (r: ToolCommand)
    ensures
        r@ == download_invocation(url@, output_dir@, job_id@),
{
    let name = job_id.to_string().concat("_video").concat(".%(ext)s");
    assert(name@ =~= video_prefix(job_id@) + ".%(ext)s"@);
    let template = join_path(output_dir, name.as_str());
    let texts = vec![
        "--format",
        "best[height<=1080]",
        "--output",
        template.as_str(),
        "--no-playlist",
        "--quiet",
        "--no-warnings",
        url,
    ];
    let args = arguments(&texts);
    assert(arg_models(args@) =~= download_invocation(url@, output_dir@, job_id@).args);
    ToolCommand { program: "yt-dlp".to_string(), args }
}

/// Reads the outcome of a download: `run` is how the downloader ended, `names`
/// the file names found in `output_dir` afterwards.
pub fn download_video(run: &ToolRun, names: &Vec<String>, output_dir: &str, job_id: &str) -> (r:
    Result<String, ExternalToolError>)
    ensures
        r is Ok <==> download_result(run@, arg_models(names@), output_dir@, job_id@) is Ok,
        r matches Ok(path) ==> path@ == download_result(
            run@,
            arg_models(names@),
            output_dir@,
            job_id@,
        )->Ok_0,
        r matches Err(e) ==> e@ == download_result(
            run@,
            arg_models(names@),
            output_dir@,
            job_id@,
        )->Err_0,
{
    if !run.succeeded() {
        return Err(ExternalToolError::of_run(ToolErrorKind::DownloadFailed, "yt-dlp", run));
    }
    let prefix = job_id.to_string().concat("_video");
    let ghost all = arg_models(names@);
    let mut i: usize = 0;
    assert(all.skip(0) =~= all);
    while i < names.len()
        invariant
            i <= names.len(),
            run@.succeeded(),
            all == arg_models(names@),
            prefix@ == video_prefix(job_id@),
            first_download(all, job_id@) == first_download(all.skip(i as int), job_id@),
        decreases names.len() - i,
    {
        proof {
            assert(all.skip(i as int).first() == names@[i as int]@);
            assert(all.skip(i as int).drop_first() =~= all.skip(i + 1));
        }
        let stem = file_stem(names[i].as_str());
        if starts_with(stem.as_str(), prefix.as_str()) {
            return Ok(join_path(output_dir, names[i].as_str()));
        }
        i += 1;
    }
    assert(all.skip(i as int).len() == 0);
    Err(
        ExternalToolError::of_output(
            ToolErrorKind::DownloadFailed,
            Fault::OutputMissing,
            "yt-dlp",
            run,
        ),
    )
}

} // verus!
