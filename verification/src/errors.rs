//! The errors that the lifecycle operations report to the host, with their
//! human-readable messages.
use vstd::prelude::*;
use vstd::string::*;

verus! {

/// Everything a lifecycle operation can report instead of succeeding.
#[derive(Debug)]
pub enum ServerError {
    /// Start refused: the running slot is already occupied.
    AlreadyRunning,
    /// Start refused: the host environment could not resolve the content
    /// root directory.
    ResourceResolutionFailed,
    /// Start refused: the resolved content root does not exist on disk;
    /// carries the expected path.
    ContentRootMissing(String),
    /// Stop refused: the running slot is already empty.
    NotRunning,
    /// Stop emptied the slot, but the background task had already gone
    /// away, so the shutdown signal could not be delivered.
    SignalDeliveryFailed,
}

/// The message text for each error.
pub open spec fn spec_message(e: ServerError) -> Seq<char> {
    match e {
        ServerError::AlreadyRunning => "服务器已经在运行中"@,
        ServerError::ResourceResolutionFailed => "获取资源目录失败"@,
        ServerError::ContentRootMissing(path) => "H5 资源目录不存在: "@ + path@
            + "，请先运行 pnpm build"@,
        ServerError::NotRunning => "服务器未运行"@,
        ServerError::SignalDeliveryFailed => "发送关闭信号失败"@,
    }
}

impl ServerError {
    /// The human-readable message reported to the host for this error.
    pub fn message(&self) -> (s: String)
        ensures
            s@ == spec_message(*self),
            s@.len() > 0,
    {
        match self {
            ServerError::AlreadyRunning => {
                proof {
                    reveal_strlit("服务器已经在运行中");
                }
                String::from_str("服务器已经在运行中")
            },
            ServerError::ResourceResolutionFailed => {
                proof {
                    reveal_strlit("获取资源目录失败");
                }
                String::from_str("获取资源目录失败")
            },
            ServerError::ContentRootMissing(path) => {
                proof {
                    reveal_strlit("H5 资源目录不存在: ");
                    reveal_strlit("，请先运行 pnpm build");
                }
                let mut s = String::from_str("H5 资源目录不存在: ");
                s.append(path.as_str());
                s.append("，请先运行 pnpm build");
                s
            },
            ServerError::NotRunning => {
                proof {
                    reveal_strlit("服务器未运行");
                }
                String::from_str("服务器未运行")
            },
            ServerError::SignalDeliveryFailed => {
                proof {
                    reveal_strlit("发送关闭信号失败");
                }
                String::from_str("发送关闭信号失败")
            },
        }
    }
}

} // verus!
