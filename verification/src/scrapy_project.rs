use vstd::prelude::*;
use vstd::string::StringExecFns;
use crate::benchmark::TestScenario;
use crate::benchmark_plan::{python_list, python_url_list};
use crate::request::strings_view;
use crate::strmap::StrMap;
use crate::text::{concat, decimal, seconds_string, seconds_text, u64_text};

verus! {

/// An edit of a template file: each occurrence of `from` becomes `to`.
#[derive(Debug)]
pub struct TemplateEdit {
    pub from: String,
    pub to: String,
}

impl View for TemplateEdit {
    type V = (Seq<char>, Seq<char>);

    open spec fn view(&self) -> (Seq<char>, Seq<char>) {
        (self.from@, self.to@)
    }
}

/// The edits, by view.
pub open spec fn edits_view(v: Seq<TemplateEdit>) -> Seq<(Seq<char>, Seq<char>)> {
    v.map_values(|e: TemplateEdit| e@)
}

fn edit(from: &str, to: String) -> (r: TemplateEdit)
    ensures
        r@ == (from@, to@),
{
    TemplateEdit { from: from.to_owned(), to }
}

/// How a boolean is written by its `Display` impl.
pub open spec fn bool_text(b: bool) -> Seq<char> {
    if b {
        "true"@
    } else {
        "false"@
    }
}

fn bool_str(b: bool) -> (r: &'static str)
    ensures
        r@ == bool_text(b),
{
    if b {
        "true"
    } else {
        "false"
    }
}

/// The line a setting is added as.
pub open spec fn setting_line(key: Seq<char>, value: Seq<char>) -> Seq<char> {
    key + " = '"@ + value + "'\n"@
}

/// The lines of the settings whose keys are given, in that order.
pub open spec fn setting_lines(keys: Seq<Seq<char>>, m: Map<Seq<char>, Seq<char>>) -> Seq<char>
    decreases keys.len(),
{
    if keys.len() == 0 {
        Seq::empty()
    } else {
        setting_lines(keys.drop_last(), m) + setting_line(keys.last(), m[keys.last()])
    }
}

/// The lines of a scenario's additional settings, in the order they were added.
pub fn settings_text(settings: &StrMap<String>) -> (r: String)
    ensures
        r@ == setting_lines(settings.key_order(), settings@),
{
    let mut out = String::new();
    let n = settings.len();
    let mut i: usize = 0;
    while i < n
        invariant
            n == settings.key_order().len(),
            i <= n,
            out@ == setting_lines(settings.key_order().take(i as int), settings@),
        decreases n - i,
    {
        let k = settings.key_at(i);
        let v = settings.value_at(i);
        out.append(k.as_str());
        out.append(" = '");
        out.append(v.as_str());
        out.append("'\n");
        proof {
            let keys = settings.key_order();
            assert(keys.take(i + 1).drop_last() =~= keys.take(i as int));
            assert(keys.take(i + 1).last() == keys[i as int]);
        }
        i = i + 1;
    }
    proof {
        assert(settings.key_order().take(n as int) =~= settings.key_order());
    }
    out
}

/// The edits of the settings file for a scenario: whether robots.txt is obeyed, the
/// concurrency, the delay in seconds, the user agent, whether redirects are followed, and the
/// additional settings in place of the line that marks where they go.
pub open spec fn settings_edits_spec(s: TestScenario) -> Seq<(Seq<char>, Seq<char>)> {
    seq![
        ("ROBOTSTXT_OBEY = True"@, "ROBOTSTXT_OBEY = "@ + bool_text(s.respect_robots_txt)),
        ("CONCURRENT_REQUESTS = 16"@, "CONCURRENT_REQUESTS = "@ + decimal(s.concurrent_requests as nat)),
        ("DOWNLOAD_DELAY = 0.0"@, "DOWNLOAD_DELAY = "@ + seconds_text(s.download_delay_ms as nat)),
        ("USER_AGENT = 'scrapy-benchmark/1.0'"@, "USER_AGENT = '"@ + s.user_agent@ + "'"@),
        ("REDIRECT_ENABLED = True"@, "REDIRECT_ENABLED = "@ + bool_text(s.follow_redirects)),
        ("# other settings will be added at runtime"@, setting_lines(s.settings.key_order(), s.settings@)),
    ]
}

/// The edits of the settings file for a scenario.
pub fn settings_edits(s: &TestScenario) -> (r: Vec<TemplateEdit>)
    ensures
        edits_view(r@) == settings_edits_spec(*s),
{
    let robots = edit("ROBOTSTXT_OBEY = True", concat("ROBOTSTXT_OBEY = ", bool_str(s.respect_robots_txt)));
    let concurrency = edit(
        "CONCURRENT_REQUESTS = 16",
        concat("CONCURRENT_REQUESTS = ", u64_text(s.concurrent_requests as u64).as_str()),
    );
    let delay = edit("DOWNLOAD_DELAY = 0.0", concat("DOWNLOAD_DELAY = ", seconds_string(s.download_delay_ms).as_str()));
    let mut ua = concat("USER_AGENT = '", s.user_agent.as_str());
    ua.append("'");
    let agent = edit("USER_AGENT = 'scrapy-benchmark/1.0'", ua);
    let redirects = edit("REDIRECT_ENABLED = True", concat("REDIRECT_ENABLED = ", bool_str(s.follow_redirects)));
    let others = edit("# other settings will be added at runtime", settings_text(&s.settings));
    let r = vec![robots, concurrency, delay, agent, redirects, others];
    proof {
        assert(edits_view(r@) =~= settings_edits_spec(*s));
    }
    r
}

/// The edit that sets the spider's start URLs.
pub open spec fn start_urls_edit_spec(urls: Seq<Seq<char>>) -> (Seq<char>, Seq<char>) {
    ("self.start_urls = []"@, "self.start_urls = "@ + python_list(urls))
}

/// The edit that sets the spider's start URLs.
pub fn start_urls_edit(urls: &Vec<String>) -> (r: TemplateEdit)
    ensures
        r@ == start_urls_edit_spec(strings_view(urls@)),
{
    edit("self.start_urls = []", concat("self.start_urls = ", python_url_list(urls).as_str()))
}

/// The edits of the spider file for a scenario: its start URLs where they are to be set, then
/// its page limit and its depth limit.
pub open spec fn spider_edits_spec(s: TestScenario, set_urls: bool) -> Seq<(Seq<char>, Seq<char>)> {
    let limits = seq![
        ("self.max_pages = 100"@, "self.max_pages = "@ + decimal(s.page_limit as nat)),
        ("self.max_depth = 2"@, "self.max_depth = "@ + decimal(s.max_depth as nat)),
    ];
    if set_urls {
        seq![start_urls_edit_spec(strings_view(s.urls@))] + limits
    } else {
        limits
    }
}

/// The edits of the spider file for a scenario.
pub fn spider_edits(s: &TestScenario, set_urls: bool) -> (r: Vec<TemplateEdit>)
    ensures
        edits_view(r@) == spider_edits_spec(*s, set_urls),
{
    let mut r: Vec<TemplateEdit> = Vec::new();
    if set_urls {
        r.push(start_urls_edit(&s.urls));
    }
    r.push(edit("self.max_pages = 100", concat("self.max_pages = ", u64_text(s.page_limit as u64).as_str())));
    r.push(edit("self.max_depth = 2", concat("self.max_depth = ", u64_text(s.max_depth as u64).as_str())));
    proof {
        assert(edits_view(r@) =~= spider_edits_spec(*s, set_urls));
    }
    r
}

/// The edits of the pipeline file: where an output directory is given, it and the file the
/// items of the run are written to (`items_` and the run's name, as JSON); none otherwise.
pub open spec fn pipeline_edits_spec(output_dir: Option<Seq<char>>, name: Seq<char>) -> Seq<(Seq<char>, Seq<char>)> {
    match output_dir {
        Some(d) => seq![
            ("self.output_dir = None"@, "self.output_dir = '"@ + d + "'"@),
            ("self.output_file = None"@, "self.output_file = os.path.join(self.output_dir, 'items_"@ + name + ".json')"@),
        ],
        None => Seq::empty(),
    }
}

/// The edits of the pipeline file.
pub fn pipeline_edits(output_dir: Option<&str>, name: &str) -> (r: Vec<TemplateEdit>)
    ensures
        edits_view(r@) == pipeline_edits_spec(
            match output_dir {
                Some(d) => Some(d@),
                None => None,
            },
            name@,
        ),
{
    match output_dir {
        Some(d) => {
            let mut dir = concat("self.output_dir = '", d);
            dir.append("'");
            let mut file = concat("self.output_file = os.path.join(self.output_dir, 'items_", name);
            file.append(".json')");
            let r = vec![edit("self.output_dir = None", dir), edit("self.output_file = None", file)];
            proof {
                assert(edits_view(r@) =~= pipeline_edits_spec(Some(d@), name@));
            }
            r
        },
        None => {
            let r: Vec<TemplateEdit> = Vec::new();
            proof {
                assert(edits_view(r@) =~= Seq::<(Seq<char>, Seq<char>)>::empty());
            }
            r
        },
    }
}

} // verus!
