//! Tests of the output resolution, the pod templates, the thumbnail
//! options and the VPN readiness decisions.

use ytdl_operator::content_storage::{OutputSpec, S3OutputSpec, ThumbnailStorageSpec, VideoStorageSpec};
use ytdl_operator::download::{Download, DownloadSpec};
use ytdl_operator::error::Error;
use ytdl_operator::executor_download::{
    build_cmd, get_format_from_filename, get_thumbnail_options, mimetype_to_format,
    parse_filter_type, resize_dimensions, resize_image,
};
use ytdl_operator::executor_query::{build_args, join_info_jsonl, parse_entities, split_lines};
use ytdl_operator::image_filter::ImageFilter;
use ytdl_operator::image_format::ImageFormat;
use ytdl_operator::k8s_model::{finalizer_add_patch, finalizer_remove_patch, ObjectMetaModel};
use ytdl_operator::metadata::Metadata;
use ytdl_operator::output::{
    bucket_has_obj, get_s3_creds, get_s3_region, get_secret_value, get_video_output,
    output_from_spec, S3CredentialsModel, S3Region, SecretModel,
};
use ytdl_operator::pod_model::{
    build_download_pod, build_query_pod, get_entity_executor, get_executor_args,
    get_executor_image, get_vpn_sidecar, job_name, masked_pod, DownloadPodOptions,
};
use ytdl_operator::job_reconcile::download_pod_options;
use ytdl_operator::vpn::{initial_ip_step, ip_change_step, VpnProbe};

fn chars(s: &str) -> Vec<char> {
    s.chars().collect()
}

fn download_named(name: &str) -> Download {
    Download {
        metadata: ObjectMetaModel {
            name: String::from(name),
            namespace: String::from("media"),
            uid: String::from("uid-7"),
            deletion_timestamp: None,
            finalizers: Vec::new(),
            owner_references: Vec::new(),
            labels: Vec::new(),
        },
        spec: DownloadSpec {
            query: String::from("https://example.com/v?id=abc"),
            ignore_errors: None,
            executor: None,
            extra: None,
            output: OutputSpec {
                video: Some(VideoStorageSpec {
                    format: None,
                    s3: Some(S3OutputSpec {
                        bucket: String::from("b"),
                        key: None,
                        secret: None,
                        region: None,
                        endpoint: None,
                    }),
                }),
                thumbnail: None,
            },
        },
        status: None,
    }
}

#[test]
fn region_defaults_to_us_east_1() {
    let spec = S3OutputSpec::default();
    assert_eq!(get_s3_region(&spec), S3Region::Named(String::from("us-east-1")));
}

#[test]
fn region_with_endpoint_is_custom() {
    let spec = S3OutputSpec {
        region: Some(String::from("nyc3")),
        endpoint: Some(String::from("https://nyc3.example.com")),
        ..S3OutputSpec::default()
    };
    assert_eq!(
        get_s3_region(&spec),
        S3Region::Custom {
            region: String::from("nyc3"),
            endpoint: String::from("https://nyc3.example.com"),
        }
    );
}

#[test]
fn secret_values_feed_the_credentials() {
    let secret = SecretModel {
        data: vec![
            (String::from("access_key_id"), String::from("AK")),
            (String::from("secret_access_key"), String::from("SECRET-REDACTED")),
        ],
    };
    assert_eq!(get_secret_value(&secret, "access_key_id"), Some(String::from("AK")));
    assert_eq!(get_secret_value(&secret, "session_token"), None);
    let spec = S3OutputSpec {
        secret: Some(String::from("creds")),
        ..S3OutputSpec::default()
    };
    match get_s3_creds(&spec, Some(&secret)) {
        S3CredentialsModel::Explicit {
            access_key_id,
            secret_access_key,
            security_token,
            session_token,
        } => {
            assert_eq!(access_key_id, Some(String::from("AK")));
            assert!(secret_access_key.is_some());
            assert_eq!(security_token, None);
            assert_eq!(session_token, None);
        }
        c => panic!("unexpected credentials {:?}", c),
    }
}

#[test]
fn default_credentials_without_secret() {
    let spec = S3OutputSpec::default();
    assert_eq!(get_s3_creds(&spec, None), S3CredentialsModel::Default);
}

#[test]
fn output_resolves_bucket_and_key() {
    let spec = S3OutputSpec {
        bucket: String::from("b"),
        ..S3OutputSpec::default()
    };
    let meta = Metadata::parse(&String::from("{\"ext\":\"mp4\",\"id\":\"abc\"}")).unwrap();
    let o = output_from_spec(&spec, None, &meta).unwrap();
    assert_eq!(o.bucket, "b");
    assert_eq!(o.key, "abc.mp4");
}

#[test]
fn output_with_unresolved_token_fails() {
    let spec = S3OutputSpec {
        bucket: String::from("b"),
        key: Some(String::from("%(uploader)s.mp4")),
        ..S3OutputSpec::default()
    };
    let meta = Metadata::parse(&String::from("{\"id\":\"abc\"}")).unwrap();
    assert!(matches!(
        output_from_spec(&spec, None, &meta),
        Err(Error::UserInputError(_))
    ));
}

#[test]
fn video_output_selector_follows_the_spec() {
    let dl = download_named("dl");
    assert!(get_video_output(&dl.spec.output).is_some());
    let empty = OutputSpec::default();
    assert!(get_video_output(&empty).is_none());
}

#[test]
fn bucket_object_counts_only_with_content() {
    assert!(!bucket_has_obj(None));
    assert!(!bucket_has_obj(Some(0)));
    assert!(bucket_has_obj(Some(17)));
}

#[test]
fn vpn_sidecar_is_the_stock_image() {
    let c = get_vpn_sidecar();
    assert_eq!(c.name, "vpn");
    assert_eq!(c.image, Some(String::from("qmcgaw/gluetun:v3.32.0")));
    assert_eq!(c.capabilities_add, vec![String::from("NET_ADMIN")]);
}

#[test]
fn masked_pod_wraps_the_worker() {
    let worker = get_vpn_sidecar();
    let p = masked_pod(
        String::from("p"),
        String::from("ns"),
        Vec::new(),
        String::from("sa"),
        worker,
    );
    assert_eq!(p.restart_policy, "Never");
    assert_eq!(p.metadata.labels, vec![(String::from("app"), String::from("ytdl"))]);
    assert_eq!(p.init_containers.len(), 1);
    assert_eq!(p.init_containers[0].name, "init");
    assert_eq!(p.containers.len(), 2);
    assert_eq!(p.containers[0].name, "vpn");
    assert_eq!(p.volumes, vec![String::from("shared")]);
}

#[test]
fn child_job_carries_one_owner_reference() {
    let dl = download_named("dl");
    let job = get_entity_executor(&dl, &String::from("abc"), String::from("{\"id\":\"abc\"}"));
    assert_eq!(job.metadata.name, "dl-abc");
    assert_eq!(job.metadata.namespace, "media");
    assert_eq!(job.metadata.owner_references.len(), 1);
    let oref = &job.metadata.owner_references[0];
    assert_eq!(oref.kind, "Download");
    assert_eq!(oref.name, "dl");
    assert!(oref.controller);
    // The parent's name is the leading prefix of the job's name up to the
    // last dash.
    let name = &job.metadata.name;
    let cut = name.rfind('-').unwrap();
    assert_eq!(&name[..cut], "dl");
    assert_eq!(job.spec.metadata, "{\"id\":\"abc\"}");
    assert_eq!(job.spec.output, dl.spec.output);
}

#[test]
fn query_pod_runs_the_query_subcommand() {
    let dl = download_named("dl");
    let p = build_query_pod(&dl, String::from("sa"), String::from("{}"));
    assert_eq!(p.metadata.name, "dl");
    assert_eq!(p.metadata.owner_references.len(), 1);
    let worker = &p.containers[1];
    assert_eq!(worker.name, "executor");
    assert_eq!(worker.image, Some(String::from("thavlik/ytdl-executor:latest")));
    assert_eq!(worker.args, Some(vec![String::from("query")]));
    assert_eq!(worker.env.len(), 1);
    assert_eq!(worker.env[0].name, "RESOURCE");
    assert_eq!(worker.env[0].value, Some(String::from("{}")));
}

#[test]
fn download_pod_flags_follow_the_options() {
    let dl = download_named("dl");
    let job = get_entity_executor(&dl, &String::from("abc"), String::from("{}"));
    let p = build_download_pod(
        &job,
        String::from("sa"),
        String::from("{}"),
        &DownloadPodOptions { download_video: true, download_thumbnail: true },
    );
    let worker = &p.containers[1];
    assert_eq!(
        worker.args,
        Some(vec![
            String::from("download"),
            String::from("--download-video"),
            String::from("--download-thumbnail"),
        ])
    );
    assert_eq!(p.metadata.owner_references[0].kind, "Executor");
}

#[test]
fn executor_args_drop_unrequested_parts() {
    let args = get_executor_args(&DownloadPodOptions {
        download_video: false,
        download_thumbnail: true,
    });
    assert_eq!(args, vec![String::from("download"), String::from("--download-thumbnail")]);
}

#[test]
fn executor_image_override_wins() {
    assert_eq!(
        get_executor_image(&Some(String::from("me/mine:1"))),
        String::from("me/mine:1")
    );
    assert_eq!(
        get_executor_image(&None),
        String::from("thavlik/ytdl-executor:latest")
    );
}

#[test]
fn job_name_is_parent_dash_id() {
    assert_eq!(job_name(&String::from("dl"), &String::from("abc")), "dl-abc");
}

#[test]
fn build_cmd_appends_extra_arguments() {
    assert_eq!(
        build_cmd("yt-dlp", &None),
        "yt-dlp --load-info-json /info.json -o -"
    );
    assert_eq!(
        build_cmd("youtube-dl", &Some(String::from("--format best"))),
        "youtube-dl --load-info-json /info.json -o - --format best"
    );
}

#[test]
fn query_args_follow_the_flags() {
    assert_eq!(
        build_args("https://example.com", false),
        vec![String::from("-j"), String::from("https://example.com")]
    );
    assert_eq!(
        build_args("q", true),
        vec![String::from("-j"), String::from("--ignore-errors"), String::from("q")]
    );
}

#[test]
fn lines_split_and_join_back() {
    let payload = String::from("{\"id\":\"x\"}\n{\"id\":\"y\"}\n{\"id\":\"z\"}");
    let lines = split_lines(&payload);
    assert_eq!(lines.len(), 3);
    let strings: Vec<String> = lines.iter().map(|l| l.iter().collect()).collect();
    let entities = parse_entities(&strings);
    assert_eq!(entities.len(), 3);
    assert_eq!(entities[0].id, "x");
    assert_eq!(entities[1].id, "y");
    assert_eq!(entities[2].id, "z");
    assert_eq!(join_info_jsonl(&lines), payload);
}

#[test]
fn warning_lines_are_skipped() {
    let lines = vec![
        String::from("WARNING: throttled"),
        String::from("{\"id\":\"x\"}"),
    ];
    let entities = parse_entities(&lines);
    assert_eq!(entities.len(), 1);
    assert_eq!(entities[0].id, "x");
}

#[test]
fn mimetypes_map_to_formats() {
    assert_eq!(mimetype_to_format("image/jpeg").unwrap(), ImageFormat::Jpeg);
    assert_eq!(mimetype_to_format("image/png").unwrap(), ImageFormat::Png);
    assert_eq!(mimetype_to_format("image/gif").unwrap(), ImageFormat::Gif);
    assert_eq!(mimetype_to_format("image/webp").unwrap(), ImageFormat::Webp);
    assert_eq!(mimetype_to_format("image/tiff").unwrap(), ImageFormat::Tiff);
    assert_eq!(mimetype_to_format("image/bmp").unwrap(), ImageFormat::Bmp);
    assert_eq!(mimetype_to_format("image/x-icon").unwrap(), ImageFormat::Ico);
    assert!(matches!(
        mimetype_to_format("text/html"),
        Err(Error::UserInputError(_))
    ));
}

#[test]
fn filter_names_match_case_insensitively() {
    assert_eq!(parse_filter_type("LANCZOS3"), Some(ImageFilter::Lanczos3));
    assert_eq!(parse_filter_type("nearest"), Some(ImageFilter::Nearest));
    assert_eq!(parse_filter_type("CatmullRom"), Some(ImageFilter::CatmullRom));
    assert_eq!(parse_filter_type("box"), None);
}

#[test]
fn format_inferred_from_filename() {
    assert_eq!(get_format_from_filename(&chars("videos/clip.JPG")), Some(ImageFormat::Jpeg));
    assert_eq!(get_format_from_filename(&chars("a.tar.png")), Some(ImageFormat::Png));
    assert_eq!(get_format_from_filename(&chars("noext")), None);
    assert_eq!(get_format_from_filename(&chars(".hidden")), None);
    assert_eq!(get_format_from_filename(&chars("dir.d/noext")), None);
}

#[test]
fn thumbnail_options_prefer_the_explicit_format() {
    let spec = ThumbnailStorageSpec {
        format: Some(ImageFormat::Png),
        width: Some(100),
        height: None,
        filter: None,
        s3: None,
    };
    let o = get_thumbnail_options(&spec, &chars("x.jpg")).unwrap();
    assert_eq!(o.format, ImageFormat::Png);
    assert_eq!(o.filter, ImageFilter::Lanczos3);
    assert_eq!(o.width, Some(100));
}

#[test]
fn thumbnail_options_infer_from_the_key() {
    let spec = ThumbnailStorageSpec::default();
    let o = get_thumbnail_options(&spec, &chars("thumbs/x.webp")).unwrap();
    assert_eq!(o.format, ImageFormat::Webp);
}

#[test]
fn thumbnail_options_fail_without_any_format() {
    let spec = ThumbnailStorageSpec::default();
    assert!(matches!(
        get_thumbnail_options(&spec, &chars("noext")),
        Err(Error::UserInputError(_))
    ));
}

#[test]
fn resize_keeps_aspect_ratio_from_width() {
    // height = round(960 / (1920/1080)) = 540.
    assert_eq!(resize_dimensions(1920, 1080, Some(960), None), Some((960, 540)));
    assert_eq!(resize_dimensions(1920, 1080, None, Some(540)), Some((960, 540)));
    assert_eq!(resize_dimensions(1920, 1080, Some(10), Some(20)), Some((10, 20)));
    assert_eq!(resize_dimensions(1920, 1080, None, None), None);
    // Halves round to the nearest larger integer: 3 * 500 / 1000 = 1.5.
    assert_eq!(resize_dimensions(1000, 500, Some(3), None), Some((3, 2)));
}

#[test]
fn resize_with_no_dimensions_is_identity() {
    let img = image::DynamicImage::new_rgb8(4, 2);
    let out = resize_image(img, ImageFilter::Nearest, None, None);
    assert_eq!(out.width(), 4);
    assert_eq!(out.height(), 2);
}

#[test]
fn resize_with_width_scales_height() {
    let img = image::DynamicImage::new_rgb8(4, 2);
    let out = resize_image(img, ImageFilter::Nearest, Some(2), None);
    assert_eq!(out.width(), 2);
    assert_eq!(out.height(), 1);
}

#[test]
fn vpn_ready_only_when_ip_changed() {
    let unmasked = String::from("1.2.3.4");
    assert_eq!(ip_change_step(&unmasked, &String::from("5.6.7.8"), 0), VpnProbe::Ready);
    assert_eq!(ip_change_step(&unmasked, &String::from("1.2.3.4"), 5), VpnProbe::Retry);
    assert_eq!(ip_change_step(&unmasked, &String::from("1.2.3.4"), 12), VpnProbe::TimedOut);
}

#[test]
fn vpn_initial_ip_times_out_at_the_deadline() {
    assert_eq!(initial_ip_step(true, 0), VpnProbe::Ready);
    assert_eq!(initial_ip_step(false, 3), VpnProbe::Retry);
    assert_eq!(initial_ip_step(false, 12), VpnProbe::TimedOut);
}

#[test]
fn finalizer_patches_are_the_expected_json() {
    assert_eq!(
        finalizer_add_patch(),
        "{\"metadata\":{\"finalizers\":[\"ytdl.beebs.dev/finalizer\"]}}"
    );
    assert_eq!(finalizer_remove_patch(), "{\"metadata\":{\"finalizers\":null}}");
}

#[test]
fn phase_names_round_trip() {
    assert_eq!(ImageFormat::from_str("TIFF"), Some(ImageFormat::Tiff));
    assert_eq!(ImageFormat::from_str("jpeg"), Some(ImageFormat::Jpeg));
    assert_eq!(ImageFormat::from_str("doc"), None);
    assert_eq!(ImageFormat::Tiff.to_str(), "tiff");
    assert_eq!(
        ytdl_operator::download::DownloadPhase::from_str("Querying"),
        Some(ytdl_operator::download::DownloadPhase::Querying)
    );
    assert_eq!(ytdl_operator::download::DownloadPhase::Querying.to_str(), "Querying");
    assert_eq!(ytdl_operator::download::DownloadPhase::from_str("Waiting"), None);
    assert_eq!(
        ytdl_operator::executor::ExecutorPhase::from_str("Failed"),
        Some(ytdl_operator::executor::ExecutorPhase::Failed)
    );
    assert_eq!(
        ytdl_operator::common::TargetPhase::from_str("Ready"),
        Some(ytdl_operator::common::TargetPhase::Ready)
    );
    assert_eq!(
        ytdl_operator::content_storage::ContentStoragePhase::from_str("Healthy"),
        Some(ytdl_operator::content_storage::ContentStoragePhase::Healthy)
    );
}

#[test]
fn output_spec_needs_one_section() {
    assert!(!OutputSpec::default().is_valid());
    let dl = download_named("dl");
    assert!(dl.spec.output.is_valid());
}

#[test]
fn resize_with_both_dimensions_fits_the_box() {
    let img = image::DynamicImage::new_rgb8(4, 2);
    let out = resize_image(img, ImageFilter::Nearest, Some(2), Some(2));
    assert!(out.width() <= 2 && out.height() <= 2);
    assert_eq!(out.width(), 2);
    assert_eq!(out.height(), 1);
}

#[test]
fn download_pod_options_follow_the_bucket_checks() {
    let o = download_pod_options(Some(false), Some(true));
    assert!(o.download_video);
    assert!(!o.download_thumbnail);
    let o = download_pod_options(None, Some(false));
    assert!(!o.download_video);
    assert!(o.download_thumbnail);
    let o = download_pod_options(None, None);
    assert!(!o.download_video && !o.download_thumbnail);
}
