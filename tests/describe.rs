use libzulip::error::{FileError, MessageError};

#[test]
fn file_errors_describe_themselves() {
    assert_eq!(
        FileError::FileTooLarge { max: 1024, given: 4096 }.describe(),
        "The file you attempted to upload was too large. (max: 1024 bytes, given: 4096 bytes.)"
    );
    assert_eq!(
        FileError::FileNotFound("a/b.txt".to_string()).describe(),
        "The given file was not found on disk. (path: `a/b.txt`)"
    );
    assert_eq!(
        FileError::DownloadFailTempFile.describe(),
        "Failed to create temporary file for download! Permissions might be messed up..."
    );
}

#[test]
fn message_errors_describe_the_failed_call() {
    assert_eq!(
        MessageError::DeletionFailed { id: 17, error: "err(BAD_REQUEST): x".to_string() }.describe(),
        "Failed to delete the message with ID `17`. err(BAD_REQUEST): x"
    );
    assert_eq!(
        MessageError::AddEmojiFailed {
            msg_id: 3,
            emoji_name: "smile".to_string(),
            error: "e".to_string()
        }
        .describe(),
        "Couldn't add an emoji reaction to message `3` with emoji name `smile`. e"
    );
    assert_eq!(
        MessageError::FileUploadFailed { path: "f.txt".to_string(), error: "e".to_string() }.describe(),
        "Failed to upload the given file. (path: f.txt, e)"
    );
    assert_eq!(
        MessageError::SendFailed { content: "hi".to_string(), error: "e".to_string() }.describe(),
        "Failed to send the given message. content: `hi`. e"
    );
}
