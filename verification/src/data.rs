//! The texts that the relay shows.

use vstd::prelude::*;

verus! {

/// The banner shown when the server starts.
pub const START_INFO: &'static str = "
\t██████╗ ██╗    ██╗      ██████╗      ██╗██████╗ 
\t██╔══██╗██║    ██║      ██╔══██╗     ██║██╔══██╗
\t██████╔╝██║ █╗ ██║█████╗██████╔╝     ██║██████╔╝
\t██╔══██╗██║███╗██║╚════╝██╔══██╗██   ██║██╔══██╗
\t██║  ██║╚███╔███╔╝      ██║  ██║╚█████╔╝██║  ██║
\t╚═╝  ╚═╝ ╚══╝╚══╝       ╚═╝  ╚═╝ ╚════╝ ╚═╝  ╚═╝
";

/// The commands of the admin console.
pub const COMMAND_HELP: &'static str = "
/list player    列出所有玩家
/list room      列出所有房间
/player size    玩家总数
/room size    房间总数
/list all_worker
";

/// What stands before the player's name in the greeting of the relay hall.
pub const RELAY_INFO_HEAD: &'static str = "[Relay CN]";

/// What stands behind the player's name in the greeting of the relay hall.
pub const RELAY_INFO_TAIL: &'static str =
    " 欢迎使用RJR,这台服务是非官方的Relay房间\nThis server is CN's unofficial Relay room\n输入ID可进入房间,输入new/mods可创建房间\n输入/help可以获得更多帮助";

/// What the hall answers to an empty command.
pub const NOTHING_TYPED: &'static str = "你还什么都没输呢";

/// What the hall says behind the id of a room that does not exist.
pub const NO_SUCH_ROOM: &'static str = "此房间不存在";

/// What the hall answers to a command that it does not know.
pub const NOT_UNDERSTOOD: &'static str = "不懂";

/// The name under which the relay speaks in chat.
pub const SERVER_NAME: &'static str = "RJR Server:";

/// The chat line that greets a player in a room.
pub const WELCOME: &'static str = "欢迎";

} // verus!
