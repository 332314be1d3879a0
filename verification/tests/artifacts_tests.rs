use enso_build::actions::artifacts::download::ArtifactDownloader;
use enso_build::actions::artifacts::download::DownloadError;
use enso_build::actions::artifacts::download::DownloadStep;
use enso_build::actions::artifacts::download::FileToDownload;
use enso_build::actions::artifacts::download::find_artifact;
use enso_build::actions::artifacts::download::headers;
use enso_build::actions::artifacts::models::API_VERSION;
use enso_build::actions::artifacts::models::ArtifactResponse;
use enso_build::actions::artifacts::models::ContainerEntry;
use enso_build::actions::artifacts::models::ItemType;
use enso_build::actions::artifacts::raw::begin_chunked;
use enso_build::actions::artifacts::raw::check_response;
use enso_build::actions::artifacts::raw::Checked;
use enso_build::actions::artifacts::raw::chunk_request;
use enso_build::actions::artifacts::raw::ChunkedUpload;
use enso_build::actions::artifacts::raw::ContentRange;
use enso_build::actions::artifacts::raw::create_container;
use enso_build::actions::artifacts::raw::describe_refusal;
use enso_build::actions::artifacts::raw::item_path_query;
use enso_build::actions::artifacts::raw::patch_artifact_size;
use enso_build::actions::artifacts::raw::stream_file_in_chunks;
use enso_build::actions::artifacts::raw::upload_file;
use enso_build::actions::artifacts::raw::upload_file_chunk;
use enso_build::actions::artifacts::raw::UploadMode;

fn artifact(name: &str) -> ArtifactResponse {
    ArtifactResponse {
        container_id: 1,
        size: 10,
        file_container_resource_url: "https://store/container/1".to_string(),
        name: name.to_string(),
        url: "https://store/artifact".to_string(),
    }
}

fn item(path: &str, item_type: ItemType) -> ContainerEntry {
    ContainerEntry {
        container_id: 1,
        path: path.to_string(),
        item_type,
        content_location: format!("https://store/content/{}", path),
    }
}

#[test]
fn relative_paths_drop_the_artifact_name() {
    assert_eq!(item("gui/assets/index.js", ItemType::File).relative_path(), "assets/index.js");
    assert_eq!(item("gui/index.html", ItemType::File).relative_path(), "index.html");
    assert_eq!(item("gui", ItemType::Folder).relative_path(), "");
    assert_eq!(item("gui/", ItemType::Folder).relative_path(), "");
    assert_eq!(item("", ItemType::Folder).relative_path(), "");
}

#[test]
fn finding_the_artifact_by_name() {
    let list = vec![artifact("wasm"), artifact("gui"), artifact("gui")];
    assert_eq!(find_artifact(&list, "gui"), Ok(1));
    assert_eq!(find_artifact(&list, "ide"), Err(DownloadError::ArtifactNotFound));
    assert_eq!(find_artifact(&Vec::new(), "gui"), Err(DownloadError::ArtifactNotFound));
}

#[test]
fn download_steps_follow_the_items() {
    let items = vec![
        item("gui/assets", ItemType::Folder),
        item("gui/assets/index.js", ItemType::File),
        item("gui/index.html", ItemType::File),
    ];
    let downloader = ArtifactDownloader::new("gui", artifact("gui"), items);
    assert_eq!(downloader.artifact_name, "gui");
    let files: Vec<String> = downloader.file_items().into_iter().map(|entry| entry.path).collect();
    assert_eq!(files, vec!["gui/assets/index.js".to_string(), "gui/index.html".to_string()]);
    let steps = downloader.download_all_to("dist/gui");
    assert_eq!(steps.len(), 3);
    assert!(matches!(&steps[0], DownloadStep::Folder(path) if path == "dist/gui/assets"));
    assert!(matches!(&steps[1], DownloadStep::File(file)
        if file.target == "dist/gui/assets/index.js"
            && file.remote_source_location == "https://store/content/gui/assets/index.js"));
    assert!(matches!(&steps[2], DownloadStep::File(file) if file.target == "dist/gui/index.html"));
    let file = FileToDownload::new_to_subtree("/tmp", &item("gui/a/b", ItemType::File)).unwrap();
    assert_eq!(file.target, "/tmp/a/b");
    assert_eq!(file.remote_source_location, "https://store/content/gui/a/b");
}

#[test]
fn download_headers() {
    assert_eq!(API_VERSION, "6.0-preview");
    assert_eq!(
        headers(),
        vec![
            ("accept-encoding".to_string(), "gzip".to_string()),
            ("accept".to_string(), "application/octet-stream;api-version=6.0-preview".to_string()),
        ]
    );
}

#[test]
fn content_ranges() {
    let whole = ContentRange::whole(10);
    assert_eq!(whole, ContentRange { start: 0, end: 9, total: Some(10) });
    assert_eq!(whole.len(), Some(10));
    assert_eq!(whole.to_string(), "bytes 0-9/10");
    assert_eq!(ContentRange::whole(0), ContentRange { start: 0, end: 0, total: Some(0) });
    let part = ContentRange { start: 5, end: 7, total: None };
    assert_eq!(part.len(), Some(3));
    assert_eq!(part.to_string(), "bytes 5-7/*");
    assert_eq!(ContentRange { start: 3, end: 2, total: None }.len(), None);
    assert_eq!(ContentRange { start: 0, end: usize::MAX, total: None }.len(), None);
}

#[test]
fn chunk_requests() {
    let range = ContentRange { start: 8, end: 15, total: Some(20) };
    let request = chunk_request(range, "dir/file.txt".to_string()).unwrap();
    assert_eq!(request.query, ("itemPath".to_string(), "dir/file.txt".to_string()));
    assert_eq!(
        request.headers,
        vec![
            ("content-length".to_string(), "8".to_string()),
            ("content-range".to_string(), "bytes 8-15/20".to_string()),
        ]
    );
    let request = upload_file_chunk(range, "dir/file.txt").unwrap();
    assert_eq!(request.query, ("itemPath".to_string(), "dir/file.txt".to_string()));
    assert_eq!(request.headers[0].1, "8");
    assert!(upload_file_chunk(ContentRange { start: 3, end: 2, total: None }, "x").is_none());
    assert_eq!(item_path_query("gui"), vec![("itemPath".to_string(), "gui".to_string())]);
    assert_eq!(
        patch_artifact_size("gui", 12),
        (("artifactName".to_string(), "gui".to_string()), 12)
    );
}

#[test]
fn small_files_go_in_one_request() {
    assert_eq!(
        upload_file(10, 64),
        UploadMode::Whole(ContentRange { start: 0, end: 9, total: Some(10) })
    );
    assert_eq!(upload_file(0, 64), UploadMode::Chunked);
    assert_eq!(upload_file(64, 64), UploadMode::Chunked);
    assert_eq!(upload_file(100, 64), UploadMode::Chunked);
}

#[test]
fn chunks_tile_the_file() {
    let mut upload = begin_chunked(150);
    assert_eq!(upload, ChunkedUpload { position: 0, total: 150 });
    let mut ranges = Vec::new();
    for read in [64, 64, 22] {
        let (range, next) = upload.next_chunk(read).unwrap();
        ranges.push(range);
        upload = next;
    }
    assert_eq!(
        ranges,
        vec![
            ContentRange { start: 0, end: 63, total: Some(150) },
            ContentRange { start: 64, end: 127, total: Some(150) },
            ContentRange { start: 128, end: 149, total: Some(150) },
        ]
    );
    assert_eq!(upload.position, 150);
    let (empty, same) = begin_chunked(0).next_chunk(0).unwrap();
    assert_eq!(empty, ContentRange { start: 0, end: 0, total: Some(0) });
    assert_eq!(same.position, 0);
    assert!(ChunkedUpload { position: usize::MAX, total: 0 }.next_chunk(1).is_none());
}

#[test]
fn chunks_are_read_until_full() {
    assert!(!stream_file_in_chunks(10, 10, 64));
    assert!(stream_file_in_chunks(0, 10, 64));
    assert!(stream_file_in_chunks(10, 64, 64));
    assert!(stream_file_in_chunks(0, 0, 64));
}

#[test]
fn store_answers() {
    assert!(matches!(check_response(200, vec![1, 2], None), Checked::Body(body) if body == vec![1, 2]));
    assert!(matches!(check_response(299, Vec::new(), None), Checked::Body(_)));
    for status in [199, 300, 404, 500, 99, 1000] {
        assert!(matches!(
            check_response(status, b"no".to_vec(), Some("no".to_string())),
            Checked::Refused { status: s, body: Some(body) } if s == status && body == "no"
        ));
    }
    assert_eq!(describe_refusal(404, &None), "Server replied with status 404.");
    assert_eq!(
        describe_refusal(500, &Some("oops".to_string())),
        "Error response body was: oops\nServer replied with status 500."
    );
}

#[test]
fn refusals_of_new_containers() {
    assert_eq!(
        create_container(403, "gui").as_deref(),
        Some("Artifact storage quota has been hit. Unable to upload any new artifacts.")
    );
    assert_eq!(
        create_container(400, "g/ui").as_deref(),
        Some("Server rejected the request. Is the artifact name g/ui valid?")
    );
    assert_eq!(create_container(500, "gui"), None);
}
