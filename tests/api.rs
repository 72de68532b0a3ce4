use gaspifs::api::{
    bearer, download_plan, download_request, endpoint_url, files_request, form_fields,
    upload_names, upload_request, CliRequest, ErrorResponse, Fields, Project, UploadURL,
};
use gaspifs::cli::{check_upload_files, prepare_destination, CommandError, DestinationStep};
use gaspifs::config::{Config, ConfigError, ConfigKey};
use gaspifs::paths::PathError;

fn s(x: &str) -> String {
    x.to_string()
}

#[test]
fn endpoint_and_header() {
    assert_eq!(endpoint_url("http://127.0.0.1:1234"), "http://127.0.0.1:1234/dportal/cli");
    assert_eq!(bearer("my_token"), "Bearer my_token");
}

#[test]
fn request_bodies() {
    assert_eq!(files_request(&Some(s("project1"))), CliRequest::Files { project: Some(s("project1")) });
    assert_eq!(
        download_request(&Some(s("test_project")), &vec![s("file1.txt"), s("file2.txt")]),
        CliRequest::Download {
            project: Some(s("test_project")),
            files: vec![s("file1.txt"), s("file2.txt")],
        }
    );
}

#[test]
fn upload_request_reports_sizes() {
    let paths = vec![s("/tmp/dir/a.txt"), s("b.bin")];
    let req = upload_request(&Some(s("test_project")), &paths, vec![4, 6]).unwrap();
    assert_eq!(
        req,
        CliRequest::Upload {
            project: Some(s("test_project")),
            files: vec![s("a.txt"), s("b.bin")],
            sizes: vec![4, 6],
        }
    );
}

#[test]
fn upload_request_rejects_nameless_path() {
    let paths = vec![s("a.txt"), s("/")];
    assert_eq!(upload_request(&None, &paths, vec![1, 2]), Err(PathError::InvalidPath));
    assert_eq!(upload_names(&paths), Err(PathError::InvalidPath));
}

#[test]
fn presigned_form_fields() {
    let u = UploadURL {
        url: s("http://127.0.0.1/"),
        fields: Fields {
            key: s("private/asdasd/uploads/asdasdasd/asdasdasd.vcf.gz"),
            algorithm: s("AWS4-HMAC-SHA256"),
            credential: s("CRED"),
            date: s("20250709T042302Z"),
            token: s("TOKEN"),
            policy: s("POL"),
            signature: s("123123123"),
        },
    };
    let f = form_fields(&u.fields);
    let expected = vec![
        (s("key"), s("private/asdasd/uploads/asdasdasd/asdasdasd.vcf.gz")),
        (s("policy"), s("POL")),
        (s("x-amz-signature"), s("123123123")),
        (s("x-amz-algorithm"), s("AWS4-HMAC-SHA256")),
        (s("x-amz-credential"), s("CRED")),
        (s("x-amz-date"), s("20250709T042302Z")),
        (s("x-amz-security-token"), s("TOKEN")),
    ];
    assert_eq!(f, expected);
}

#[test]
fn download_plan_pairs_urls_with_names() {
    let urls = vec![
        s("https://github.com/x/raw/main/hipster.vcf.gz"),
        s("https://github.com/x/raw/main/data/BGSI%20synthetic%20data/demo_metadata.json?sig=1"),
    ];
    let plan = download_plan(&urls, "/tmp/");
    assert_eq!(plan.len(), 2);
    assert_eq!(plan[0].display_name, "hipster.vcf.gz");
    assert_eq!(plan[0].target, "/tmp/hipster.vcf.gz");
    assert_eq!(plan[1].source, urls[1]);
    assert_eq!(plan[1].display_name, "demo_metadata.json");
    assert_eq!(plan[1].target, "/tmp/demo_metadata.json");
}

#[test]
fn plain_records() {
    let e = ErrorResponse { error: 404, message: s("File not found") };
    assert_eq!((e.error, e.message.as_str()), (404, "File not found"));
    let p = Project { name: s("project1"), description: s("First project") };
    assert_eq!(p.name, "project1");
}

#[test]
fn error_response_message_carries_both_fields() {
    let e = ErrorResponse { error: 404, message: s("File not found") };
    assert_eq!(e.message(), "API error 404: File not found");
    let e = ErrorResponse { error: 0, message: s("") };
    assert_eq!(e.message(), "API error 0: ");
    let e = ErrorResponse { error: -17, message: s("odd") };
    assert_eq!(e.message(), "API error -17: odd");
    let e = ErrorResponse { error: i32::MIN, message: s("m") };
    assert_eq!(e.message(), "API error -2147483648: m");
    let e = ErrorResponse { error: i32::MAX, message: s("m") };
    assert_eq!(e.message(), "API error 2147483647: m");
}

#[test]
fn destination_checks() {
    assert_eq!(prepare_destination(true, false), Err(CommandError::DestinationNotDirectory));
    assert_eq!(prepare_destination(true, true), Ok(DestinationStep::UseExisting));
    assert_eq!(prepare_destination(false, false), Ok(DestinationStep::Create));
    assert_eq!(check_upload_files(&vec![]), Err(CommandError::NoFiles));
    assert_eq!(check_upload_files(&vec![s("a")]), Ok(()));
    assert_eq!(CommandError::NoFiles.message(), "No files specified for upload.");
}

#[test]
fn config_first_missing_value() {
    assert_eq!(
        Config::from_values(None, Some(s("r")), None),
        Err(ConfigError::Missing(ConfigKey::Api))
    );
    assert_eq!(
        Config::from_values(Some(s("a")), None, None),
        Err(ConfigError::Missing(ConfigKey::Region))
    );
    assert_eq!(
        Config::from_values(Some(s("a")), Some(s("r")), None),
        Err(ConfigError::Missing(ConfigKey::ClientId))
    );
    assert_eq!(
        Config::from_values(Some(s("a")), Some(s("r")), Some(s("c"))),
        Ok(Config { api: s("a"), region: s("r"), client_id: s("c") })
    );
    assert_eq!(ConfigKey::ClientId.variable(), "COGNITO_CLIENT_ID");
}
